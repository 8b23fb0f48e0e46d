//! A hole that can be filled once and taken once.
//!
//! An ivar is a reference-counted, single-assignment cell reached through two
//! kinds of handles: a read handle ([`IVarRd`]), which may be cloned, peeks at
//! the value and may take it out once; and a write handle ([`IVarWr`]), which
//! fills the cell and is consumed by doing so. The handles are for one thread.
//!
//! The cell's bookkeeping fits in one 32-bit state word: an "ever filled" bit,
//! a "currently filled" bit and a 30-bit count of the handles that share it.
//! That word and the cell's fill / take / peek rules are in [`cell`]; what
//! holds of them across several operations is in [`laws`].

pub mod cell;
pub mod handle;
pub mod laws;
pub mod state;

pub use cell::IVarCell;
pub use handle::{new, IVarRd, IVarWr};
