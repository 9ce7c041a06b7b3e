//! The single-slot deliverable.
use vstd::prelude::*;

pub mod inner;
pub mod wait_for_value_future;

use crate::cell::lent;
use crate::cell::refused;
use crate::cell::registration_made;
use crate::cell::signal_made;
use crate::progress::Progress;
use core::task::Context;
use inner::delivery_result;
use inner::observation;
use inner::wait_progress;
use inner::AsyncOptionInner;
use wait_for_value_future::WaitForValueFuture;

verus! {

/// A handle on a slot that one producer fills and any number of consumers
/// wait for. Cloning the handle gives another handle on the same slot.
#[verifier::reject_recursive_types(T)]
pub struct AsyncOption<T> {
    /// The shared state.
    pub inner: AsyncOptionInner<T>,
}

impl<T> AsyncOption<T> {
    /// A deliverable that is pending for `None` and pre-filled for `Some`:
    /// its shared state is fresh state for `value`.
    pub fn new(value: Option<T>) -> (res: Self)
        ensures
            res.inner.fresh(value),
    {
        AsyncOption { inner: AsyncOptionInner::new(value) }
    }

    /// A deliverable that already holds `item`: its shared state is fresh
    /// state for `Some(item)`.
    pub fn ready(item: T) -> (res: Self)
        ensures
            res.inner.fresh(Some(item)),
    {
        AsyncOption::new(Some(item))
    }

    /// A deliverable that holds nothing yet: its shared state is fresh state
    /// for `None`.
    pub fn pending() -> (res: Self)
        ensures
            res.inner.fresh(None),
    {
        AsyncOption::new(None)
    }

    /// Delivers `item`: stores it in the slot, over any earlier value, and
    /// signals the wake slot. When the slot is held elsewhere nothing is
    /// stored and `item` comes back in `Err`.
    ///
    /// On `Ok` the slot lends `Some(item)` and a signal was made on the wake
    /// slot; on `Err` the slot refuses an attempt. The outcome for what the
    /// attempt returned is fixed by [`inner::deliver_through`].
    ///
    /// What the contract says of a slot holds of the cell, not of this call
    /// alone: see [`crate::cell`].
    pub fn set(&self, item: T) -> (res: Result<(), T>)
        ensures
            exists|granted: bool| res == delivery_result(granted, item),
            res matches Err(back) ==> back == item && refused(self.inner.value),
            res is Ok ==> lent(self.inner.value, Some(item)) && signal_made(self.inner.waker),
    {
        self.inner.try_set(item)
    }

    /// A suspending operation on this deliverable that completes with the
    /// delivered value.
    pub fn wait_for_value(&self) -> (res: WaitForValueFuture<T>)
        ensures
            res.source() == self.inner,
    {
        WaitForValueFuture::new(self.inner.clone())
    }

    /// Drives a wait on this very handle once: completes with a clone of the
    /// delivered value if the slot can be read and holds one; otherwise
    /// registers the waker of `cx` and stays pending.
    ///
    /// A drive that stays pending leaves a clone of the wake handle of `cx` in
    /// the wake slot, unless the wake slot refuses an attempt.
    ///
    /// What the contract says of a slot holds of the cell, not of this call
    /// alone: see [`crate::cell`].
    pub fn poll(&self, cx: &mut Context<'_>) -> (res: Progress<T>) where T: Clone
        ensures
            exists|observed: Option<T>|
                #[trigger] observation(self.inner.value, observed) && res == wait_progress(
                    observed,
                ),
            res is Pending ==> registration_made(self.inner.waker, *old(cx)),
    {
        self.inner.poll_value(cx)
    }
}

impl<T> Clone for AsyncOption<T> {
    /// Another handle on the same deliverable.
    fn clone(&self) -> (res: Self)
        ensures
            res == *self,
    {
        AsyncOption { inner: self.inner.clone() }
    }
}

} // verus!
