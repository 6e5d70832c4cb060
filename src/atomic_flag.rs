//! A boolean flag kept in an `AtomicCell`, with the compare-and-set step that
//! the reentrancy guard relies on.

use crossbeam_utils::atomic::AtomicCell;
use vstd::prelude::*;

verus! {

#[verifier::external_type_specification]
#[verifier::external_body]
#[verifier::reject_recursive_types(T)]
pub struct ExAtomicCell<T>(AtomicCell<T>);

/// The value that a boolean cell holds.
pub uninterp spec fn flag_of(c: AtomicCell<bool>) -> bool;

/// Relies on `AtomicCell::new`: the cell starts out holding `v`.
#[verifier::external_body]
pub(crate) fn flag_new(v: bool) -> (r: AtomicCell<bool>)
    ensures
        flag_of(r) == v,
{
    AtomicCell::new(v)
}

/// Relies on `AtomicCell::load`: it returns the value held.
#[verifier::external_body]
pub(crate) fn flag_load(c: &AtomicCell<bool>) -> (r: bool)
    ensures
        r == flag_of(*c),
{
    c.load()
}

/// Relies on `AtomicCell::store`: afterwards the cell holds `v`.
#[verifier::external_body]
pub(crate) fn flag_store(c: &mut AtomicCell<bool>, v: bool)
    ensures
        flag_of(*final(c)) == v,
{
    c.store(v)
}

/// Relies on `AtomicCell::compare_exchange`: where the cell holds `current` it
/// now holds `new` and `Ok(current)` comes back; otherwise the cell is left
/// as it was and `Err` carries the value held.
#[verifier::external_body]
pub(crate) fn flag_compare_exchange(c: &mut AtomicCell<bool>, current: bool, new: bool) -> (r: Result<bool, bool>)
    ensures
        flag_of(*old(c)) == current ==> r is Ok && r->Ok_0 == current,
        flag_of(*old(c)) == current ==> flag_of(*final(c)) == new,
        flag_of(*old(c)) != current ==> r is Err && r->Err_0 == flag_of(*old(c)),
        flag_of(*old(c)) != current ==> flag_of(*final(c)) == flag_of(*old(c)),
{
    c.compare_exchange(current, new)
}

} // verus!
