//! What holds of a cell across several operations, stated over [`CellModel`],
//! the model that the contracts of [`crate::cell::IVarCell`] speak of.
//!
//! Every handle of an ivar works on one shared cell: `new` makes a fresh cell,
//! `fill` is `filled_with`, `take` hands out `payload` and leaves `emptied`,
//! `peek` hands out `payload`, a clone is `after_clone` and dropping a handle
//! is `after_drop`, which disposes of the payload when no handle is left; `new`
//! makes a fresh cell and clones its first handle.

use crate::cell::CellModel;
use crate::state::MAX_REFS;
use vstd::prelude::*;

verus! {

/// The cell after `k` of its handles went away.
pub open spec fn dropped<T>(m: CellModel<T>, k: nat) -> CellModel<T>
    decreases k,
{
    if k == 0 {
        m
    } else {
        dropped(m, (k - 1) as nat).after_drop()
    }
}

/// A new cell is empty and was never filled: peeking and taking find nothing,
/// and taking leaves it as it is.
pub proof fn law_fresh_is_empty<T>()
    ensures
        CellModel::<T>::fresh().wf(),
        CellModel::<T>::fresh().payload is None,
        !CellModel::<T>::fresh().currently_filled,
        !CellModel::<T>::fresh().ever_filled,
        CellModel::<T>::fresh().emptied() == CellModel::<T>::fresh(),
{
}

/// After a fill with `v`, peeking finds `v`, and the cell is filled and was
/// ever filled.
pub proof fn law_fill_is_visible<T>(m: CellModel<T>, v: T)
    requires
        m.wf(),
        !m.ever_filled,
    ensures
        m.filled_with(v).wf(),
        m.filled_with(v).payload == Some(v),
        m.filled_with(v).currently_filled,
        m.filled_with(v).ever_filled,
{
}

/// After a fill with `v`, the first take hands out `v`; afterwards the cell
/// is empty but was ever filled, and every later take or peek finds nothing
/// and leaves the cell as it is.
pub proof fn law_take_once<T>(m: CellModel<T>, v: T)
    requires
        m.wf(),
        !m.ever_filled,
    ensures
        m.filled_with(v).payload == Some(v),
        m.filled_with(v).emptied().wf(),
        m.filled_with(v).emptied().payload is None,
        !m.filled_with(v).emptied().currently_filled,
        m.filled_with(v).emptied().ever_filled,
        m.filled_with(v).emptied().emptied() == m.filled_with(v).emptied(),
{
}

/// A clone shares the cell: cloning counts one more handle and leaves the
/// flags and the value in place, and a take
/// through any handle leaves the same empty cell as a take before the clone
/// would have, so no handle sees the value afterwards.
pub proof fn law_clone_shares<T>(m: CellModel<T>)
    requires
        m.wf(),
        m.refs < MAX_REFS,
    ensures
        m.after_clone().wf(),
        m.after_clone().refs == m.refs + 1,
        m.after_clone().ever_filled == m.ever_filled,
        m.after_clone().payload == m.payload,
        m.after_clone().emptied() == m.emptied().after_clone(),
        m.after_clone().emptied().payload is None,
        m.after_clone().emptied().emptied() == m.after_clone().emptied(),
{
}

/// The pair that `new` hands out shares one cell that was never filled, is
/// empty, and counts both handles.
pub proof fn law_new_pair<T>()
    ensures
        CellModel::<T>::fresh().after_clone().wf(),
        CellModel::<T>::fresh().after_clone().refs == 2,
        !CellModel::<T>::fresh().after_clone().ever_filled,
        !CellModel::<T>::fresh().after_clone().currently_filled,
        CellModel::<T>::fresh().after_clone().payload is None,
{
}

/// Dropping all but the last of the handles changes only the count: the
/// flags and the value stay.
pub proof fn lemma_dropped_keeps_state<T>(m: CellModel<T>, k: nat)
    requires
        m.wf(),
        m.refs < MAX_REFS,
        k < m.refs,
    ensures
        dropped(m, k).refs == m.refs - k,
        dropped(m, k).ever_filled == m.ever_filled,
        dropped(m, k).currently_filled == m.currently_filled,
        dropped(m, k).payload == m.payload,
    decreases k,
{
    if k > 0 {
        lemma_dropped_keeps_state(m, (k - 1) as nat);
    }
}

/// With `m.refs` handles live, the cell is not released while any of them
/// remains: each drop before the last leaves a count of at least one,
/// disposes of nothing and leaves the value in place. The last drop brings
/// the count to zero and disposes of the value that the cell held, so
/// afterwards it holds none; the value is disposed of once, and only if it
/// was never taken.
pub proof fn law_released_at_last<T>(m: CellModel<T>)
    requires
        m.wf(),
        1 <= m.refs < MAX_REFS,
    ensures
        forall|j: nat|
            j < m.refs ==> #[trigger] dropped(m, j).refs == m.refs - j && dropped(m, j).payload
                == m.payload,
        forall|j: nat|
            j + 1 < m.refs ==> (#[trigger] dropped(m, j).disposed_on_drop()) is None,
        dropped(m, (m.refs - 1) as nat).disposed_on_drop() == m.payload,
        dropped(m, m.refs as nat).refs == 0,
        dropped(m, m.refs as nat).payload is None,
        dropped(m, m.refs as nat).wf(),
{
    assert forall|j: nat| j < m.refs implies #[trigger] dropped(m, j).refs == m.refs - j
        && dropped(m, j).payload == m.payload && dropped(m, j).currently_filled
        == m.currently_filled && dropped(m, j).ever_filled == m.ever_filled by {
        lemma_dropped_keeps_state(m, j);
    }
    lemma_dropped_keeps_state(m, (m.refs - 1) as nat);
    assert(dropped(m, m.refs as nat) == dropped(m, (m.refs - 1) as nat).after_drop());
}

/// A handle that is cloned and then dropped again leaves the cell as it was.
pub proof fn law_clone_then_drop<T>(m: CellModel<T>)
    requires
        m.wf(),
        1 <= m.refs,
        m.refs + 1 < MAX_REFS,
    ensures
        m.after_clone().after_drop() == m,
{
}

/// A fill followed by the write handle going away: while a read handle is
/// left, the value stays visible and the count drops by one; when the write
/// handle was the last one, the value it just put in is disposed of and the
/// cell is left with no handle and no value.
pub proof fn law_fill_then_writer_drops<T>(m: CellModel<T>, v: T)
    requires
        m.wf(),
        !m.ever_filled,
        1 <= m.refs < MAX_REFS,
    ensures
        m.refs >= 2 ==> m.filled_with(v).after_drop() == m.filled_with(v).without_ref()
            && m.filled_with(v).after_drop().payload == Some(v)
            && m.filled_with(v).disposed_on_drop() is None,
        m.refs == 1 ==> m.filled_with(v).disposed_on_drop() == Some(v)
            && m.filled_with(v).after_drop().refs == 0
            && m.filled_with(v).after_drop().payload is None,
        m.filled_with(v).after_drop().wf(),
        m.filled_with(v).after_drop().ever_filled,
{
}

} // verus!
