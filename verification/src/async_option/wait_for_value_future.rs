//! The suspending operation that waits for a delivery.
use vstd::prelude::*;

use super::inner::observation;
use super::inner::wait_progress;
use super::inner::AsyncOptionInner;
use crate::cell::registration_made;
use crate::progress::Progress;
use core::task::Context;

verus! {

/// Completes with a clone of the delivered value once there is one.
#[verifier::reject_recursive_types(T)]
pub struct WaitForValueFuture<T> {
    inner: AsyncOptionInner<T>,
}

impl<T> WaitForValueFuture<T> {
    /// The shared state that is waited on.
    pub closed spec fn source(&self) -> AsyncOptionInner<T> {
        self.inner
    }

    /// A wait on the deliverable behind `inner`.
    pub fn new(inner: AsyncOptionInner<T>) -> (res: Self)
        ensures
            res.source() == inner,
    {
        Self { inner }
    }

    /// Drives the wait once: completes with a clone of the delivered value
    /// if the slot can be read and holds one; otherwise registers the waker
    /// of `cx` and stays pending.
    ///
    /// A drive that stays pending leaves a clone of the wake handle of `cx` in
    /// the wake slot, unless the wake slot refuses an attempt.
    ///
    /// What the contract says of a slot holds of the cell, not of this call
    /// alone: see [`crate::cell`].
    pub fn poll(&mut self, cx: &mut Context<'_>) -> (res: Progress<T>) where T: Clone
        ensures
            final(self).source() == old(self).source(),
            exists|observed: Option<T>|
                #[trigger] observation(old(self).source().value, observed) && res == wait_progress(
                    observed,
                ),
            res is Pending ==> registration_made(old(self).source().waker, *old(cx)),
    {
        let res = self.inner.poll_value(cx);
        proof {
            let observed = choose|observed: Option<T>|
                #[trigger] observation(self.inner.value, observed) && res == wait_progress(
                    observed,
                );
            assert(observation(old(self).source().value, observed));
        }
        res
    }
}

} // verus!
