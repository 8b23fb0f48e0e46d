//! The packed state word of a cell.
//!
//! Bit 31 records that the cell was ever filled, bit 30 that it holds a value
//! now, and bits 0 to 29 count the handles that share the cell.

use vstd::prelude::*;

verus! {

/// Bit 31: the cell was filled at some point.
pub const EVER_FILLED: u32 = 0x8000_0000;

/// Bit 30: the cell holds a value that has not been taken.
pub const CURRENTLY_FILLED: u32 = 0x4000_0000;

/// Both filled bits together.
pub const FILLED_BITS: u32 = 0xC000_0000;

/// Bits 0 to 29: the count of handles.
pub const REFS_MASK: u32 = 0x3FFF_FFFF;

/// The largest count of handles that the word can hold.
pub const MAX_REFS: u32 = 0x3FFF_FFFF;

/// Whether the word's "ever filled" bit is set.
pub open spec fn ever_bit(meta: u32) -> bool {
    meta & EVER_FILLED != 0
}

/// Whether the word's "currently filled" bit is set.
pub open spec fn filled_bit(meta: u32) -> bool {
    meta & CURRENTLY_FILLED != 0
}

/// The count of handles that the word holds.
pub open spec fn refs_field(meta: u32) -> u32 {
    meta & REFS_MASK
}

} // verus!
