//! The shared state behind every handle of one watched value.
use vstd::prelude::*;

use core::task::Waker;
use portable_atomic_util::Arc;
use rtic_sync::arbiter::Arbiter;
use rtic_sync::arbiter::ExclusiveAccess;

use crate::cell::lent;
use crate::cell::made_with;
use crate::cell::refused;
use crate::cell::registered;
use crate::cell::signal;
use crate::cell::signal_made;
use crate::cell::store;
use crate::cell::written;
use crate::cell::read;
use crate::cell::read_result;

verus! {

/// The value slot and the wake slot of one watched value. Clones share both.
#[verifier::reject_recursive_types(V)]
pub struct ValueContainerInner<V> {
    /// The value that was set last. The slot is never empty.
    pub value: Arc<Arbiter<V>>,
    /// The wake handle of the operation that suspended last, if any.
    pub waker: Arc<Arbiter<Option<Waker>>>,
}

/// What a write returns: `Ok` when access to the slot was granted, and the
/// value handed back when it was not.
pub open spec fn write_result<T>(granted: bool, value: T) -> Result<(), T> {
    if granted {
        Ok(())
    } else {
        Err(value)
    }
}

/// The write, for what the attempt on the value slot returned. With a
/// granted access it stores `value` through the access and succeeds; with a
/// refusal it hands `value` back. The access comes back with the outcome, so
/// that the slot stays held while the caller signals.
pub fn write_through<'a, T>(access: Option<ExclusiveAccess<'a, T>>, value: T) -> (res: (
    Result<(), T>,
    Option<ExclusiveAccess<'a, T>>,
))
    ensures
        res.0 == write_result(access is Some, value),
        written(access, res.1, value),
{
    match access {
        Some(mut granted) => {
            store(&mut granted, value);
            (Ok(()), Some(granted))
        },
        None => (Err(value), None),
    }
}

/// Success is owed on a free slot: a write to a slot that refuses no
/// attempt returns `Ok`. `res` stands for what
/// [`ValueContainerInner::try_set_value`] returned for this state and value.
pub proof fn lemma_write_succeeds_on_a_free_slot<T>(
    state: ValueContainerInner<T>,
    value: T,
    res: Result<(), T>,
)
    requires
        call_ensures(ValueContainerInner::<T>::try_set_value, (&state, value), res),
        !refused(state.value),
    ensures
        res is Ok,
        lent(state.value, value),
{
}

impl<T> ValueContainerInner<T> {
    /// True when this is fresh state for `value`: its value slot is a cell
    /// made with `value` and its wake slot is a cell made with no handle.
    pub open spec fn fresh(self, value: T) -> bool {
        &&& made_with(self.value, value)
        &&& made_with(self.waker, None)
    }

    /// Fresh state whose slot holds `value` and whose wake slot is empty.
    pub fn new(value: T) -> (res: Self)
        ensures
            res.fresh(value),
    {
        Self { value: Arc::new(Arbiter::new(value)), waker: Arc::new(Arbiter::new(None)) }
    }

    /// Invokes the stored wake handle, if the wake slot can be had and holds
    /// one. The handle stays in the slot. What is done with what the slot
    /// lent is fixed by [`signal`].
    ///
    /// What the contract says of a slot holds of the cell, not of this call
    /// alone: see [`crate::cell`].
    pub fn wake(&self)
        ensures
            signal_made(self.waker),
    {
        let cell: &Arbiter<Option<Waker>> = &*self.waker;
        if let Some(inner_waker) = cell.try_access() {
            let slot: &Option<Waker> = &*inner_waker;
            assert(lent(self.waker, *slot));
            signal(slot);
        }
    }

    /// Stores `waker` in the wake slot in place of any earlier handle, if the
    /// wake slot can be had; otherwise drops it.
    ///
    /// Afterwards the wake slot lends `waker`, unless it refuses an attempt.
    /// What a granted access lends once the handle is stored is fixed by
    /// [`store`].
    ///
    /// What the contract says of a slot holds of the cell, not of this call
    /// alone: see [`crate::cell`].
    pub fn set_waker(&self, waker: Waker)
        ensures
            registered(self.waker, waker),
    {
        let cell: &Arbiter<Option<Waker>> = &*self.waker;
        if let Some(mut inner_waker) = cell.try_access() {
            store(&mut inner_waker, Some(waker));
        }
    }

    /// Replaces the value in the slot by `value` and signals the wake slot,
    /// or hands `value` back untouched when the slot is held elsewhere.
    ///
    /// On `Ok` the slot lends `value` and a signal was made on the wake slot;
    /// on `Err` the slot refuses an attempt. The outcome for what the attempt
    /// returned, and what the access lends once the value is stored, are
    /// fixed by [`write_through`]; the signal follows while the access is
    /// still held.
    ///
    /// What the contract says of a slot holds of the cell, not of this call
    /// alone: see [`crate::cell`].
    pub fn try_set_value(&self, value: T) -> (res: Result<(), T>)
        ensures
            exists|granted: bool| res == write_result(granted, value),
            res matches Err(back) ==> back == value && refused(self.value),
            res is Ok ==> lent(self.value, value) && signal_made(self.waker),
    {
        let cell: &Arbiter<T> = &*self.value;
        let attempt = cell.try_access();
        let ghost granted = attempt is Some;
        let (res, _held) = write_through(attempt, value);
        if res.is_ok() {
            self.wake();
        }
        assert(res == write_result(granted, value));
        res
    }

    /// A clone of the value in the slot, or `None` when the slot is held
    /// elsewhere.
    ///
    /// What the contract says of a slot holds of the cell, not of this call
    /// alone: see [`crate::cell`].
    pub fn try_get_value(&self) -> (res: Option<T>) where T: Clone
        ensures
            read_result(self.value, res),
    {
        read(&self.value)
    }
}

impl<T> Clone for ValueContainerInner<T> where T: Clone {
    /// Another handle on the same two slots.
    fn clone(&self) -> (res: Self)
        ensures
            res == *self,
    {
        Self { value: self.value.clone(), waker: self.waker.clone() }
    }
}

} // verus!
