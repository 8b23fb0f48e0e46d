//! The handles: an internal owning handle ([`IVar`]) that keeps the cell's
//! count of handles, and the two public ones built on it.
//!
//! All handles of one ivar share one `Rc<Cell<Slot<T>>>`. An operation moves
//! the slot out of the `Cell`, works on it, and puts it back; what it finds
//! there was left by an earlier operation through any of the handles, so the
//! handles' results are stated over the cell operations that decide them:
//! `IVarCell::take`, `peek`, `fill_once`, `add_handle` and `drop_handle` (see
//! [`crate::cell`] and [`crate::laws`]).

use crate::cell::{CellModel, IVarCell};
use std::cell::Cell;
use std::rc::Rc;
use vstd::prelude::*;

verus! {

/// `std::cell::Cell`, which holds the slot that the handles of one ivar share;
/// it is opaque here, and reached only through `slot_cell` and `swap_slot`.
#[verifier::external_type_specification]
#[verifier::external_body]
#[verifier::reject_recursive_types(T)]
pub struct ExCell<T: ?Sized>(Cell<T>);

/// Relies on `std::cell::Cell::new`: it wraps `v`; nothing is stated of the
/// contents, which later calls change.
#[verifier::external_body]
fn slot_cell<T>(v: Slot<T>) -> (r: Cell<Slot<T>>) {
    Cell::new(v)
}

/// Relies on `std::cell::Cell::replace`: it stores `v` and hands back what the
/// cell held, without panicking. What it held depends on earlier calls, so
/// nothing is stated of it.
#[verifier::external_body]
fn swap_slot<T>(c: &Cell<Slot<T>>, v: Slot<T>) -> (r: Slot<T>)
    opens_invariants none
    no_unwind
{
    c.replace(v)
}

/// A cell whose flags agree with its payload: what the shared `Cell` holds
/// between operations.
struct Slot<T> {
    cell: IVarCell<T>,
}

impl<T> Slot<T> {
    #[verifier::type_invariant]
    closed spec fn inv(self) -> bool {
        self.cell.wf()
    }

    /// A slot with a new cell in it, held by one handle.
    fn fresh() -> (r: Self)
        ensures
            r.cell@ == CellModel::<T>::fresh(),
        opens_invariants none
        no_unwind
    {
        Slot { cell: IVarCell::new() }
    }
}

/// An owning handle to a cell; it counts itself in the cell's count of handles
/// and, as the last one, disposes of a value that was never taken.
#[verifier::reject_recursive_types(T)]
struct IVar<T> {
    shared: Rc<Cell<Slot<T>>>,
}

impl<T> IVar<T> {
    /// A handle to a new cell.
    fn new() -> Self {
        IVar { shared: Rc::new(slot_cell(Slot::fresh())) }
    }

    /// Moves the slot out of the shared cell, leaving a fresh one there.
    fn open(&self) -> (r: Slot<T>)
        opens_invariants none
        no_unwind
    {
        swap_slot(&*self.shared, Slot::fresh())
    }

    /// Puts the slot back into the shared cell.
    fn close(&self, s: Slot<T>)
        opens_invariants none
        no_unwind
    {
        let _ = swap_slot(&*self.shared, s);
    }

    /// A second handle to the same cell, counted by `IVarCell::add_handle`.
    fn make_ref(&self) -> (r: Self)
        ensures
            r.shared == self.shared,
    {
        let mut s = self.open();
        proof {
            use_type_invariant(&s);
        }
        s.cell.add_handle();
        self.close(s);
        IVar { shared: Rc::clone(&self.shared) }
    }
}

impl<T> Drop for IVar<T> {
    /// Uncounts the handle by `IVarCell::drop_handle`, and drops the value
    /// that it hands out as the last handle goes.
    fn drop(&mut self)
        opens_invariants none
        no_unwind
    {
        let mut s = self.open();
        proof {
            use_type_invariant(&s);
        }
        // The value handed out, if any, is dropped at the end of this scope.
        let _disposed = s.cell.drop_handle();
        self.close(s);
    }
}

/// A reading handle to an ivar.
///
/// It may be cloned, so that several places can peek at the value; the clones
/// share one cell, and once any of them takes the value, none of them sees it
/// again.
#[verifier::reject_recursive_types(T)]
pub struct IVarRd<T> {
    inner: IVar<T>,
}

impl<T> IVarRd<T> {
    /// Whether the two read handles reach the same cell.
    pub closed spec fn shares_cell(&self, o: &IVarRd<T>) -> bool {
        self.inner.shared == o.inner.shared
    }

    /// Whether this read handle and the write handle `w` reach the same cell.
    pub closed spec fn pairs_with(&self, w: &IVarWr<T>) -> bool {
        self.inner.shared == w.inner.shared
    }

    /// A copy of the value, or `None` if the ivar was not filled yet or its
    /// value was taken. The value stays in place. While `T::clone` runs, the
    /// shared cell holds a fresh placeholder, so a `clone` that reads this
    /// ivar through another handle finds it empty.
    pub fn peek(&self) -> Option<T>
        where T: Clone
    {
        let s = self.inner.open();
        proof {
            use_type_invariant(&s);
        }
        let r = match s.cell.peek() {
            Some(v) => Some(v.clone()),
            None => None,
        };
        self.inner.close(s);
        r
    }

    /// Takes the value out of the ivar, emptying it: later `take`s and `peek`s
    /// through this handle or any of its clones give `None`.
    pub fn take(&mut self) -> Option<T> {
        let mut s = self.inner.open();
        proof {
            use_type_invariant(&s);
        }
        let r = s.cell.take();
        self.inner.close(s);
        r
    }

    /// Whether the ivar holds a value now: filled and not yet taken.
    pub fn is_filled(&self) -> bool {
        let s = self.inner.open();
        let r = s.cell.is_currently_filled();
        self.inner.close(s);
        r
    }

    /// Whether the ivar was ever filled. Once this holds, it holds for good,
    /// whether or not the value was taken since.
    pub fn was_ever_filled(&self) -> bool {
        let s = self.inner.open();
        let r = s.cell.was_ever_filled();
        self.inner.close(s);
        r
    }
}

impl<T> Clone for IVarRd<T> {
    /// Another reading handle to the same cell.
    fn clone(&self) -> (r: Self)
        ensures
            r.shares_cell(self),
    {
        IVarRd { inner: self.inner.make_ref() }
    }
}

/// A writing handle to an ivar: it fills the ivar once and is consumed by
/// doing so.
#[verifier::reject_recursive_types(T)]
pub struct IVarWr<T> {
    inner: IVar<T>,
}

impl<T> IVarWr<T> {
    /// Places `t` in the ivar, consuming the write handle.
    ///
    /// Each cell has one write handle and `fill` consumes it, so the cell was
    /// never filled before and `IVarCell::fill_once` takes `t`; were it filled,
    /// the cell would be left as it is and `t` dropped.
    pub fn fill(self, t: T) {
        let mut s = self.inner.open();
        proof {
            use_type_invariant(&s);
        }
        let _refused = s.cell.fill_once(t);
        self.inner.close(s);
    }
}

/// A new, empty ivar, with a reading and a writing handle to it.
pub fn new<T>() -> (r: (IVarRd<T>, IVarWr<T>))
    ensures
        r.0.pairs_with(&r.1),
{
    let wr = IVar::new();
    let rd = wr.make_ref();
    (IVarRd { inner: rd }, IVarWr { inner: wr })
}

} // verus!
