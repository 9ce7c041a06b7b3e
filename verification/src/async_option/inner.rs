//! The shared state behind every handle of one single-slot deliverable.
use vstd::prelude::*;

use core::task::Waker;
use portable_atomic_util::Arc;
use rtic_sync::arbiter::Arbiter;
use rtic_sync::arbiter::ExclusiveAccess;

use crate::cell::lends_only;
use crate::cell::lent;
use crate::cell::made_with;
use crate::cell::refused;
use crate::cell::registered;
use crate::cell::registration_made;
use crate::cell::waker_of;
use crate::cell::signal;
use crate::cell::signal_made;
use crate::cell::store;
use crate::cell::written;
use crate::cell::read;
use crate::cell::read_result;
use crate::progress::Progress;
use core::task::Context;

verus! {

/// The value slot and the wake slot of one deliverable. Clones share both.
#[verifier::reject_recursive_types(T)]
pub struct AsyncOptionInner<T> {
    /// `None` until a value has been delivered.
    pub value: Arc<Arbiter<Option<T>>>,
    /// The wake handle of the operation that suspended last, if any.
    pub waker: Arc<Arbiter<Option<Waker>>>,
}

/// What a delivery returns: `Ok` when access to the slot was granted, and the
/// item handed back when it was not.
pub open spec fn delivery_result<T>(granted: bool, item: T) -> Result<(), T> {
    if granted {
        Ok(())
    } else {
        Err(item)
    }
}

/// What a non-blocking read for a waiter returns: the item, if the read
/// found one in the slot, and nothing if it found the slot empty or was
/// refused.
pub open spec fn observation<T: Clone>(shared: Arc<Arbiter<Option<T>>>, res: Option<T>) -> bool {
    match res {
        Some(item) => read_result(shared, Some(Some(item))),
        None => read_result(shared, None) || read_result(shared, Some(None)),
    }
}

/// What a drive reports for what it found in the slot: the value if it read
/// one, and otherwise that it has to be driven again.
pub open spec fn wait_progress<T>(observed: Option<T>) -> Progress<T> {
    match observed {
        Some(item) => Progress::Ready(item),
        None => Progress::Pending,
    }
}

/// Turns what a non-blocking read of the slot returned into the outcome of
/// the drive. An empty slot and a slot held elsewhere both arrive here as
/// `None` and are told apart by nobody.
pub fn progress_of<T>(observed: Option<T>) -> (res: Progress<T>)
    ensures
        res == wait_progress(observed),
{
    match observed {
        Some(item) => Progress::Ready(item),
        None => Progress::Pending,
    }
}

/// The delivery, for what the attempt on the value slot returned. With a
/// granted access it stores `Some(item)` through the access and succeeds; with
/// a refusal it hands `item` back. The access comes back with the outcome, so
/// that the slot stays held while the caller signals.
pub fn deliver_through<'a, T>(access: Option<ExclusiveAccess<'a, Option<T>>>, item: T) -> (res: (
    Result<(), T>,
    Option<ExclusiveAccess<'a, Option<T>>>,
))
    ensures
        res.0 == delivery_result(access is Some, item),
        written(access, res.1, Some(item)),
{
    match access {
        Some(mut granted) => {
            store(&mut granted, Some(item));
            (Ok(()), Some(granted))
        },
        None => (Err(item), None),
    }
}

/// Success is owed on a free slot: a delivery to a slot that refuses no
/// attempt returns `Ok`. `res` stands for what [`AsyncOptionInner::try_set`]
/// returned for this state and item.
pub proof fn lemma_delivery_succeeds_on_a_free_slot<T>(
    state: AsyncOptionInner<T>,
    item: T,
    res: Result<(), T>,
)
    requires
        call_ensures(AsyncOptionInner::<T>::try_set, (&state, item), res),
        !refused(state.value),
    ensures
        res is Ok,
        lent(state.value, Some(item)),
{
}

/// Round trip, and the step by which every waiter of a group completes: a
/// drive on a slot that refuses no attempt and lends nothing but
/// `Some(item)` completes with a clone of `item`. `res` stands for what
/// [`AsyncOptionInner::poll_value`] returned, `observed` for what it read.
///
/// The two conditions say of the cell what "free, and holding the delivered
/// item" says of a slot. They speak of the cell for good, so a cell that was
/// read while it was empty does not meet them; the whole course of a
/// broadcast is proved of the model in [`crate::protocol`] only.
pub proof fn lemma_wait_reads_the_delivery<T: Clone>(
    shared: Arc<Arbiter<Option<T>>>,
    item: T,
    observed: Option<T>,
    res: Progress<T>,
)
    requires
        observation(shared, observed),
        res == wait_progress(observed),
        !refused(shared),
        lends_only(shared, Some(item)),
    ensures
        res matches Progress::Ready(found) && cloned(item, found),
{
}

impl<T> AsyncOptionInner<T> {
    /// True when this is fresh state for `value`: its value slot is a cell
    /// made with `value` and its wake slot is a cell made with no handle.
    pub open spec fn fresh(self, value: Option<T>) -> bool {
        &&& made_with(self.value, value)
        &&& made_with(self.waker, None)
    }

    /// Fresh state whose slot holds `value` and whose wake slot is empty.
    pub fn new(value: Option<T>) -> (res: Self)
        ensures
            res.fresh(value),
    {
        AsyncOptionInner { value: Arc::new(Arbiter::new(value)), waker: Arc::new(Arbiter::new(None)) }
    }

    /// A clone of the delivered value, or `None` when nothing has been
    /// delivered yet or the slot is held elsewhere.
    ///
    /// A value comes back only if the slot lends an item of which it is a clone,
    /// and nothing only if the slot refuses an attempt or lends no item.
    ///
    /// What the contract says of a slot holds of the cell, not of this call
    /// alone: see [`crate::cell`].
    pub fn try_get(&self) -> (res: Option<T>) where T: Clone
        ensures
            observation(self.value, res),
    {
        let inner = read(&self.value)?;
        inner
    }

    /// Stores `item` in the slot and signals the wake slot, or hands `item`
    /// back untouched when the slot is held elsewhere.
    ///
    /// On `Ok` the slot lends `Some(item)` and a signal was made on the wake
    /// slot; on `Err` the slot refuses an attempt. The outcome for what the
    /// attempt returned, and what the access lends once the item is stored,
    /// are fixed by [`deliver_through`]; the signal follows while the access
    /// is still held.
    ///
    /// What the contract says of a slot holds of the cell, not of this call
    /// alone: see [`crate::cell`].
    pub fn try_set(&self, item: T) -> (res: Result<(), T>)
        ensures
            exists|granted: bool| res == delivery_result(granted, item),
            res matches Err(back) ==> back == item && refused(self.value),
            res is Ok ==> lent(self.value, Some(item)) && signal_made(self.waker),
    {
        let cell: &Arbiter<Option<T>> = &*self.value;
        let attempt = cell.try_access();
        let ghost granted = attempt is Some;
        let (res, _held) = deliver_through(attempt, item);
        if res.is_ok() {
            self.try_wake();
        }
        assert(res == delivery_result(granted, item));
        res
    }

    /// Invokes the stored wake handle, if the wake slot can be had and holds
    /// one. The handle stays in the slot. What is done with what the slot
    /// lent is fixed by [`signal`].
    ///
    /// What the contract says of a slot holds of the cell, not of this call
    /// alone: see [`crate::cell`].
    pub fn try_wake(&self)
        ensures
            signal_made(self.waker),
    {
        let cell: &Arbiter<Option<Waker>> = &*self.waker;
        if let Some(access) = cell.try_access() {
            let slot: &Option<Waker> = &*access;
            assert(lent(self.waker, *slot));
            signal(slot);
        }
    }

    /// Stores `new_waker` in the wake slot in place of any earlier handle, if
    /// the wake slot can be had; otherwise drops it.
    ///
    /// Afterwards the wake slot lends `new_waker`, unless it refuses an attempt.
    /// What a granted access lends once the handle is stored is fixed by
    /// [`store`].
    ///
    /// What the contract says of a slot holds of the cell, not of this call
    /// alone: see [`crate::cell`].
    pub fn set_waker(&self, new_waker: Waker)
        ensures
            registered(self.waker, new_waker),
    {
        let cell: &Arbiter<Option<Waker>> = &*self.waker;
        if let Some(mut access) = cell.try_access() {
            store(&mut access, Some(new_waker));
        }
    }

    /// One drive of a wait: reads the slot without blocking and completes
    /// with a clone of the value if there is one; otherwise registers the
    /// waker of `cx` in the wake slot and stays pending.
    ///
    /// A drive that stays pending leaves a clone of the wake handle of `cx` in
    /// the wake slot, unless the wake slot refuses an attempt.
    ///
    /// What the contract says of a slot holds of the cell, not of this call
    /// alone: see [`crate::cell`].
    pub fn poll_value(&self, cx: &mut Context<'_>) -> (res: Progress<T>) where T: Clone
        ensures
            exists|observed: Option<T>|
                #[trigger] observation(self.value, observed) && res == wait_progress(observed),
            res is Pending ==> registration_made(self.waker, *old(cx)),
    {
        let observed = self.try_get();
        let res = progress_of(observed);
        if res.is_pending() {
            let handle = cx.waker().clone();
            assert(waker_of(*cx, handle));
            self.set_waker(handle);
        }
        res
    }
}

impl<T> Clone for AsyncOptionInner<T> {
    /// Another handle on the same two slots.
    fn clone(&self) -> (res: Self)
        ensures
            res == *self,
    {
        AsyncOptionInner { value: self.value.clone(), waker: self.waker.clone() }
    }
}

} // verus!
