//! The storage that the handles of one ivar share: an optional payload and the
//! packed state word of [`crate::state`].

use crate::state::{
    ever_bit, filled_bit, refs_field, CURRENTLY_FILLED, EVER_FILLED, FILLED_BITS, MAX_REFS,
    REFS_MASK,
};
use vstd::prelude::*;

verus! {

/// What a cell is, seen from outside: its two flags, its count of handles and
/// the value it holds.
pub struct CellModel<T> {
    pub ever_filled: bool,
    pub currently_filled: bool,
    pub refs: nat,
    pub payload: Option<T>,
}

impl<T> CellModel<T> {
    /// A value is present exactly while the cell is filled, a filled cell was
    /// filled at some point, and the count fits in its 30 bits.
    pub open spec fn wf(self) -> bool {
        &&& self.currently_filled <==> self.payload is Some
        &&& self.currently_filled ==> self.ever_filled
        &&& self.refs <= MAX_REFS
    }

    /// A new cell: never filled, empty, held by one handle.
    pub open spec fn fresh() -> Self {
        CellModel { ever_filled: false, currently_filled: false, refs: 1, payload: None }
    }

    /// The cell after `v` is put in it.
    pub open spec fn filled_with(self, v: T) -> Self {
        CellModel { ever_filled: true, currently_filled: true, payload: Some(v), ..self }
    }

    /// The cell after its value, if any, is taken out.
    pub open spec fn emptied(self) -> Self {
        CellModel { currently_filled: false, payload: None, ..self }
    }

    /// The cell after one more handle comes to share it.
    pub open spec fn with_ref(self) -> Self {
        CellModel { refs: self.refs + 1, ..self }
    }

    /// The cell after one of its handles goes away.
    pub open spec fn without_ref(self) -> Self {
        CellModel { refs: (self.refs - 1) as nat, ..self }
    }

    /// The cell after a handle to it is cloned: one more handle is counted,
    /// unless the count is at its largest value, where it stays.
    pub open spec fn after_clone(self) -> Self {
        if self.refs < MAX_REFS {
            self.with_ref()
        } else {
            self
        }
    }

    /// The cell after a handle to it is dropped: one handle less is counted,
    /// and when none is left the value that was never taken is disposed of. A
    /// count at its largest value (or at zero) stays as it is.
    pub open spec fn after_drop(self) -> Self {
        if 1 <= self.refs < MAX_REFS {
            if self.refs == 1 {
                self.without_ref().emptied()
            } else {
                self.without_ref()
            }
        } else {
            self
        }
    }

    /// The value that dropping a handle disposes of: the payload, when the
    /// handle was the last one.
    pub open spec fn disposed_on_drop(self) -> Option<T> {
        if self.refs == 1 {
            self.payload
        } else {
            None
        }
    }
}

/// The heap-resident cell: the payload, present only while the cell is
/// filled, and the state word.
pub struct IVarCell<T> {
    data: Option<T>,
    meta: u32,
}

impl<T> View for IVarCell<T> {
    type V = CellModel<T>;

    closed spec fn view(&self) -> CellModel<T> {
        CellModel {
            ever_filled: ever_bit(self.meta),
            currently_filled: filled_bit(self.meta),
            refs: refs_field(self.meta) as nat,
            payload: self.data,
        }
    }
}

impl<T> IVarCell<T> {
    /// The cell's flags agree with its payload.
    pub open spec fn wf(&self) -> bool {
        self@.wf()
    }

    /// The count of handles never exceeds its field.
    pub proof fn lemma_refs_bounded(&self)
        ensures
            self@.refs <= MAX_REFS,
    {
        let m = self.meta;
        assert(m & 0x3FFF_FFFFu32 <= 0x3FFF_FFFFu32) by (bit_vector);
    }

    /// A cell that was never filled, held by one handle.
    pub fn new() -> (r: Self)
        ensures
            r.wf(),
            r@ == CellModel::<T>::fresh(),
        opens_invariants none
        no_unwind
    {
        let r = IVarCell { data: None, meta: 1u32 };
        assert(1u32 & 0x8000_0000u32 == 0 && 1u32 & 0x4000_0000u32 == 0 && 1u32 & 0x3FFF_FFFFu32
            == 1u32) by (bit_vector);
        r
    }

    /// Whether the cell was ever filled.
    pub fn was_ever_filled(&self) -> (r: bool)
        ensures
            r == self@.ever_filled,
        opens_invariants none
        no_unwind
    {
        self.meta & EVER_FILLED != 0
    }

    /// Whether the cell holds a value now.
    pub fn is_currently_filled(&self) -> (r: bool)
        ensures
            r == self@.currently_filled,
        opens_invariants none
        no_unwind
    {
        self.meta & CURRENTLY_FILLED != 0
    }

    /// Clears the "currently filled" bit, leaving the rest of the word. This
    /// is a step of `take`: alone it leaves the flag out of step with the
    /// payload.
    pub fn mark_taken(&mut self)
        ensures
            final(self)@ == (CellModel { currently_filled: false, ..old(self)@ }),
        opens_invariants none
        no_unwind
    {
        let m = self.meta;
        self.meta = m & !CURRENTLY_FILLED;
        assert((m & !0x4000_0000u32) & 0x8000_0000u32 == m & 0x8000_0000u32 && (m
            & !0x4000_0000u32) & 0x4000_0000u32 == 0 && (m & !0x4000_0000u32) & 0x3FFF_FFFFu32 == m
            & 0x3FFF_FFFFu32) by (bit_vector);
    }

    /// Sets both filled bits, leaving the count. This is a step of `fill`:
    /// alone it leaves the flags out of step with the payload.
    pub fn set_filled(&mut self)
        ensures
            final(self)@ == (CellModel { ever_filled: true, currently_filled: true, ..old(self)@ }),
        opens_invariants none
        no_unwind
    {
        let m = self.meta;
        self.meta = m | FILLED_BITS;
        assert((m | 0xC000_0000u32) & 0x8000_0000u32 != 0 && (m | 0xC000_0000u32) & 0x4000_0000u32
            != 0 && (m | 0xC000_0000u32) & 0x3FFF_FFFFu32 == m & 0x3FFF_FFFFu32) by (bit_vector);
    }

    /// The count of handles that share the cell.
    pub fn strong_refs(&self) -> (r: u32)
        ensures
            r == self@.refs,
        opens_invariants none
        no_unwind
    {
        self.meta & REFS_MASK
    }

    /// Counts one more handle.
    pub fn inc_ref(&mut self)
        requires
            old(self)@.refs < MAX_REFS,
        ensures
            final(self)@ == old(self)@.with_ref(),
        opens_invariants none
        no_unwind
    {
        let m = self.meta;
        let ghost n: u32 = (m + 1) as u32;
        assert(m & 0x3FFF_FFFFu32 < 0x3FFF_FFFFu32 ==> m < 0xFFFF_FFFFu32) by (bit_vector);
        assert(m & 0x3FFF_FFFFu32 < 0x3FFF_FFFFu32 && n == (m + 1) as u32 ==> n & 0x8000_0000u32
            == m & 0x8000_0000u32 && n & 0x4000_0000u32 == m & 0x4000_0000u32 && n & 0x3FFF_FFFFu32
            == ((m & 0x3FFF_FFFFu32) + 1) as u32) by (bit_vector);
        self.meta = m + 1;
    }

    /// Counts one handle less; true when none is left, and the cell is then to
    /// be released.
    pub fn dec_ref(&mut self) -> (r: bool)
        requires
            old(self)@.refs >= 1,
        ensures
            final(self)@ == old(self)@.without_ref(),
            r == (final(self)@.refs == 0),
        opens_invariants none
        no_unwind
    {
        let m = self.meta;
        assert(m & 0x3FFF_FFFFu32 >= 1 ==> m >= 1) by (bit_vector);
        let ghost n: u32 = (m - 1) as u32;
        assert(m & 0x3FFF_FFFFu32 >= 1 && n == (m - 1) as u32 ==> n & 0x8000_0000u32 == m
            & 0x8000_0000u32 && n & 0x4000_0000u32 == m & 0x4000_0000u32 && n & 0x3FFF_FFFFu32 == ((m
            & 0x3FFF_FFFFu32) - 1) as u32) by (bit_vector);
        self.meta = m - 1;
        self.strong_refs() == 0
    }

    /// Takes the value out, if the cell holds one; the cell is empty afterwards.
    pub fn take(&mut self) -> (r: Option<T>)
        requires
            old(self).wf(),
        ensures
            final(self).wf(),
            r == old(self)@.payload,
            final(self)@ == old(self)@.emptied(),
        opens_invariants none
        no_unwind
    {
        if self.is_currently_filled() {
            self.mark_taken();
            let mut r = None;
            std::mem::swap(&mut r, &mut self.data);
            r
        } else {
            None
        }
    }

    /// The value that the cell holds, if any, left in place.
    pub fn peek(&self) -> (r: Option<&T>)
        requires
            self.wf(),
        ensures
            match r {
                Some(v) => self@.payload == Some(*v),
                None => self@.payload is None,
            },
        opens_invariants none
        no_unwind
    {
        if self.is_currently_filled() {
            match &self.data {
                Some(v) => Some(v),
                None => None,
            }
        } else {
            None
        }
    }

    /// Puts `v` in a cell that was never filled.
    pub fn fill(&mut self, v: T)
        requires
            old(self).wf(),
            !old(self)@.ever_filled,
        ensures
            final(self).wf(),
            final(self)@ == old(self)@.filled_with(v),
        opens_invariants none
        no_unwind
    {
        self.data = Some(v);
        self.set_filled();
    }

    /// Fills a cell that was never filled with `v`; a cell that was filled
    /// before is left as it is, and `v` is handed back.
    pub fn fill_once(&mut self, v: T) -> (r: Option<T>)
        requires
            old(self).wf(),
        ensures
            final(self).wf(),
            !old(self)@.ever_filled ==> final(self)@ == old(self)@.filled_with(v) && r is None,
            old(self)@.ever_filled ==> final(self)@ == old(self)@ && r == Some(v),
        opens_invariants none
        no_unwind
    {
        if self.was_ever_filled() {
            Some(v)
        } else {
            self.fill(v);
            None
        }
    }

    /// Counts the clone of a handle (see `CellModel::after_clone`).
    pub fn add_handle(&mut self)
        requires
            old(self).wf(),
        ensures
            final(self).wf(),
            final(self)@ == old(self)@.after_clone(),
        opens_invariants none
        no_unwind
    {
        proof {
            self.lemma_refs_bounded();
        }
        if self.strong_refs() < MAX_REFS {
            self.inc_ref();
        }
    }

    /// Uncounts a dropped handle (see `CellModel::after_drop`), and hands out
    /// the value to dispose of when it was the last one.
    pub fn drop_handle(&mut self) -> (r: Option<T>)
        requires
            old(self).wf(),
        ensures
            final(self).wf(),
            final(self)@ == old(self)@.after_drop(),
            r == old(self)@.disposed_on_drop(),
        opens_invariants none
        no_unwind
    {
        let refs = self.strong_refs();
        if 1 <= refs && refs < MAX_REFS {
            if self.dec_ref() {
                self.take()
            } else {
                None
            }
        } else {
            None
        }
    }
}

} // verus!
