//! Shared cells: what the contracts say of them, and the steps that are taken
//! on a granted access.
//!
//! A shared cell is an arbiter behind a counted pointer. What it holds at a
//! given moment cannot be told from its value, so the contracts of the
//! operations speak of what the outside calls on it may answer instead: that
//! a cell is what the constructors return for a value, that an attempt to
//! access it may be refused, or that an attempt may be granted and lend a
//! value.
//!
//! Each predicate here holds of a cell, not of one call on it. It says that
//! some outside call may return what the predicate names for that cell, and
//! an operation establishes it by making that call and getting that answer.
//! Once it holds of a cell it holds for good: after one attempt on a cell was
//! refused, `refused` tells nothing more of a later attempt on the same cell,
//! and `lent` may hold of one cell for several values, one for each that some
//! access lent. So a contract that names a predicate says that the operation
//! met this answer or that it was met before; what it rules out is a result
//! for which no call on the cell ever gave the answer. None of the
//! predicates says what an outside call does.
//!
//! What an operation does once an attempt has answered stands in functions
//! that take the answer: [`store`], [`signal`] and [`read_through`] here, and
//! the outcome of a write and of a delivery beside the operations. Their contracts speak of
//! the very access that they are given, so they fix what that access lends
//! when they return.
use vstd::prelude::*;

use core::ops::Deref;
use core::task::Context;
use core::task::Waker;
use portable_atomic_util::Arc;
use rtic_sync::arbiter::Arbiter;
use rtic_sync::arbiter::ExclusiveAccess;

verus! {

/// True when `shared` is a fresh cell made with `value`: what `Arc::new`
/// may return for what `Arbiter::new` may return for `value`.
pub open spec fn made_with<V>(shared: Arc<Arbiter<V>>, value: V) -> bool {
    exists|cell: Arbiter<V>|
        call_ensures(Arbiter::<V>::new, (value,), cell) && #[trigger] call_ensures(
            Arc::<Arbiter<V>>::new,
            (cell,),
            shared,
        )
}

/// True when a non-blocking attempt to access `shared` may be refused:
/// `try_access` may return `None` for this cell. It holds of the cell from the
/// first attempt that was refused.
pub open spec fn refused<V>(shared: Arc<Arbiter<V>>) -> bool {
    exists|cell: &Arbiter<V>|
        call_ensures(<Arc<Arbiter<V>> as Deref>::deref, (&shared,), cell)
            && #[trigger] call_ensures(Arbiter::<V>::try_access, (cell,), None)
}

/// True when a non-blocking attempt to access `shared` may be granted and
/// the access may lend `current` as the value in the cell: `try_access` may
/// return a token for this cell, and reading through that token may give
/// `current`. It holds of the cell from the first access that read `current`
/// or wrote it.
pub open spec fn lent<V>(shared: Arc<Arbiter<V>>, current: V) -> bool {
    exists|cell: &Arbiter<V>, access: ExclusiveAccess<'_, V>|
        call_ensures(<Arc<Arbiter<V>> as Deref>::deref, (&shared,), cell)
            && #[trigger] call_ensures(Arbiter::<V>::try_access, (cell,), Some(access))
            && #[trigger] call_ensures(
            <ExclusiveAccess<'_, V> as Deref>::deref,
            (&access,),
            &current,
        )
}

/// True when reading through `access` may lend `value`: what the access
/// holds, for an access that verified code has in hand.
pub open spec fn lends<V>(access: ExclusiveAccess<'_, V>, value: V) -> bool {
    call_ensures(<ExclusiveAccess<'_, V> as Deref>::deref, (&access,), &value)
}

/// True when `after` is an access to every cell that `before` is an access
/// to: whatever cell `try_access` may return `before` for, it may return
/// `after` for.
pub open spec fn same_cell<V>(before: ExclusiveAccess<'_, V>, after: ExclusiveAccess<'_, V>) -> bool {
    forall|cell: &Arbiter<V>| #[trigger]
        call_ensures(Arbiter::<V>::try_access, (cell,), Some(before)) ==> call_ensures(
            Arbiter::<V>::try_access,
            (cell,),
            Some(after),
        )
}

/// What a write of `value` makes of what an attempt returned: nothing of a
/// refusal, and of a granted access an access to the same cell that lends
/// `value`.
pub open spec fn written<V>(
    before: Option<ExclusiveAccess<'_, V>>,
    after: Option<ExclusiveAccess<'_, V>>,
    value: V,
) -> bool {
    match before {
        None => after is None,
        Some(before) => after matches Some(after) && lends(after, value) && same_cell(before, after),
    }
}

/// True when `shared` lends `value` and nothing else: every value that an
/// access to this cell may lend is `value`. Since `lent` holds of a cell for
/// good, this is so only of a cell that never held another value while it was
/// read or written.
pub open spec fn lends_only<V>(shared: Arc<Arbiter<V>>, value: V) -> bool {
    forall|current: V| #[trigger] lent(shared, current) ==> current == value
}

/// What a signal on the wake slot `wake` does: nothing when the attempt to
/// access the slot is refused or the slot lends no handle, and otherwise a
/// call of `wake_by_ref` on a handle that the slot lends. As `refused` and
/// `lent` do, it holds of the slot, not of one signal: it does not tell which
/// of the three a given signal met.
pub open spec fn signal_made(wake: Arc<Arbiter<Option<Waker>>>) -> bool {
    ||| refused(wake)
    ||| lent(wake, None)
    ||| exists|waker: Waker| #[trigger]
        lent(wake, Some(waker)) && call_ensures(Waker::wake_by_ref, (&waker,), ())
}

/// What a registration of `handle` in the wake slot `wake` does: nothing
/// when the attempt to access the slot is refused, and otherwise it leaves
/// `handle` in the slot, in place of whatever handle was there, so that the
/// slot lends `handle`. It holds of the slot, not of one registration: once
/// an attempt on the slot was refused, it tells nothing more of a later
/// registration.
pub open spec fn registered(wake: Arc<Arbiter<Option<Waker>>>, handle: Waker) -> bool {
    refused(wake) || lent(wake, Some(handle))
}

/// True when `handle` is a clone of the wake handle of the task that is
/// driven with `cx`: what `Waker::clone` returned for what `Context::waker`
/// lent.
pub open spec fn waker_of(cx: Context<'_>, handle: Waker) -> bool {
    exists|waker: &Waker|
        call_ensures(Context::waker, (&cx,), waker) && #[trigger] call_ensures(
            <Waker as Clone>::clone,
            (waker,),
            handle,
        )
}

/// What a drive that stays pending does with the wake slot `wake`: it
/// registers a clone of the wake handle of the task that is driven with `cx`.
/// It holds of the slot and the task, as `registered` does.
pub open spec fn registration_made(wake: Arc<Arbiter<Option<Waker>>>, cx: Context<'_>) -> bool {
    exists|handle: Waker| waker_of(cx, handle) && #[trigger] registered(wake, handle)
}

/// What a non-blocking read of `shared` returns: a clone of a value that a
/// granted access lends, or nothing when the attempt is refused. It holds of
/// the cell: a read returns no value that no access to the cell ever lent,
/// and returns nothing only for a cell that refused an attempt at some time.
pub open spec fn read_result<V: Clone>(shared: Arc<Arbiter<V>>, res: Option<V>) -> bool {
    match res {
        Some(value) => exists|current: V| #[trigger] lent(shared, current) && cloned(current, value),
        None => refused(shared),
    }
}

/// Writes `value` through a granted access. When the call returns, the
/// access lends `value`, and it is an access to the same cell as before.
pub fn store<V>(access: &mut ExclusiveAccess<'_, V>, value: V)
    ensures
        lends(*final(access), value),
        same_cell(*old(access), *final(access)),
{
    **access = value;
}

/// Signals through what the wake slot lent: invokes the wake handle, if
/// there is one, and leaves it where it is.
pub fn signal(slot: &Option<Waker>)
    ensures
        slot matches Some(waker) ==> call_ensures(Waker::wake_by_ref, (&waker,), ()),
{
    if let Some(waker) = slot {
        waker.wake_by_ref();
    }
}

/// The read, for what the attempt on the cell returned: with a granted
/// access a clone of what the access lends, and nothing with a refusal.
pub fn read_through<V: Clone>(access: &Option<ExclusiveAccess<'_, V>>) -> (res: Option<V>)
    ensures
        match *access {
            Some(granted) => res matches Some(value) && exists|current: V| #[trigger]
                lends(granted, current) && cloned(current, value),
            None => res is None,
        },
{
    match access {
        Some(granted) => {
            let current: &V = &**granted;
            let value = current.clone();
            assert(lends(*granted, *current));
            Some(value)
        },
        None => None,
    }
}

/// A read of a cell that refuses no attempt and lends nothing but `value`
/// returns a clone of `value`.
pub proof fn lemma_read_finds_the_only_value<V: Clone>(
    shared: Arc<Arbiter<V>>,
    value: V,
    res: Option<V>,
)
    requires
        read_result(shared, res),
        !refused(shared),
        lends_only(shared, value),
    ensures
        res matches Some(found) && cloned(value, found),
{
}

/// Reads a shared cell without blocking: a clone of the value in the cell,
/// or `None` when the cell is held elsewhere. The outcome for what the
/// attempt returned is fixed by [`read_through`].
///
/// What the contract says holds of the cell, not of this call alone: see
/// the head of this file.
pub fn read<V: Clone>(shared: &Arc<Arbiter<V>>) -> (res: Option<V>)
    ensures
        read_result(*shared, res),
{
    let cell: &Arbiter<V> = &*shared;
    let attempt = cell.try_access();
    let res = read_through(&attempt);
    proof {
        if let Some(granted) = attempt {
            let current = choose|current: V| #[trigger]
                lends(granted, current) && cloned(current, res.unwrap());
            assert(lent(*shared, current));
        }
    }
    res
}

} // verus!
