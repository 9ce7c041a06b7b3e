//! The suspending operation that carries a write through.
use vstd::prelude::*;

use super::inner::write_result;
use super::inner::ValueContainerInner;
use crate::cell::lent;
use crate::cell::refused;
use crate::cell::signal_made;
use crate::progress::Progress;
use core::task::Context;

verus! {

/// Completes once its value has reached the shared slot. A write that found
/// the slot held elsewhere keeps its value and tries again on every drive.
#[verifier::reject_recursive_types(T)]
pub struct SetValueFuture<'a, T> {
    inner: &'a ValueContainerInner<T>,
    value: Option<T>,
}

/// What an attempt to write leaves: nothing left and the operation complete
/// when the write went through; the value that came back left to write and
/// the operation pending when it did not.
pub open spec fn settled<T>(outcome: Result<(), T>) -> (Option<T>, Progress<()>) {
    match outcome {
        Ok(_) => (None, Progress::Ready(())),
        Err(value) => (Some(value), Progress::Pending),
    }
}

/// One drive of a write, for a slot that is `granted` or not: with nothing
/// left to write the operation is complete; with a value left it makes one
/// attempt to write that value.
pub open spec fn write_step<T>(left: Option<T>, granted: bool) -> (Option<T>, Progress<()>) {
    match left {
        None => (None, Progress::Ready(())),
        Some(value) => settled(write_result(granted, value)),
    }
}

/// What one attempt to write `value` to `inner` leaves to write, and what it
/// leaves in the cells: nothing left, the slot lending `value` and a signal
/// made on the wake slot when the attempt went through; `value` itself left
/// and a slot that refuses an attempt when it did not.
pub open spec fn attempted<T>(inner: ValueContainerInner<T>, value: T, left: Option<T>) -> bool {
    match left {
        Some(back) => back == value && refused(inner.value),
        None => lent(inner.value, value) && signal_made(inner.waker),
    }
}

/// Turns the outcome of a write attempt into what is left to write and what
/// the drive reports.
pub fn settle<T>(outcome: Result<(), T>) -> (res: (Option<T>, Progress<()>))
    ensures
        res == settled(outcome),
{
    match outcome {
        Ok(_) => (None, Progress::Ready(())),
        Err(value) => (Some(value), Progress::Pending),
    }
}

impl<'a, T> SetValueFuture<'a, T> {
    /// The value that has not reached the shared slot yet, if any.
    pub closed spec fn left(&self) -> Option<T> {
        self.value
    }

    /// The shared state that the write goes to.
    pub closed spec fn target(&self) -> &'a ValueContainerInner<T> {
        self.inner
    }

    /// Tries the write at once. The operation starts with nothing left when
    /// the write went through, and with `value` left when the slot was held
    /// elsewhere.
    ///
    /// With nothing left the slot lends `value` and a signal was made on the
    /// wake slot; with `value` left the slot refuses an attempt.
    ///
    /// What the contract says of a slot holds of the cell, not of this call
    /// alone: see [`crate::cell`].
    pub fn new(value: T, inner: &'a ValueContainerInner<T>) -> (res: Self)
        ensures
            res.target() == inner,
            exists|granted: bool| res.left() == #[trigger] write_step(Some(value), granted).0,
            attempted(*inner, value, res.left()),
    {
        let outcome = inner.try_set_value(value);
        proof {
            let granted = choose|granted: bool| outcome == write_result(granted, value);
            assert(write_step(Some(value), granted) == settled(outcome));
        }
        let (left, _) = settle(outcome);
        Self { inner, value: left }
    }

    /// Drives the write once: complete when nothing is left, otherwise one
    /// more attempt. The write is never given up: while it stays pending the
    /// value that is left is the one that was left before.
    ///
    /// A drive that completes a write leaves the slot lending the value that
    /// was left and has made a signal on the wake slot; one that stays pending
    /// met a slot that refuses an attempt.
    ///
    /// What the contract says of a slot holds of the cell, not of this call
    /// alone: see [`crate::cell`].
    pub fn poll(&mut self, _cx: &mut Context<'_>) -> (res: Progress<()>)
        ensures
            final(self).target() == old(self).target(),
            exists|granted: bool|
                (final(self).left(), res) == #[trigger] write_step(old(self).left(), granted),
            old(self).left() matches Some(value) ==> attempted(
                *old(self).target(),
                value,
                final(self).left(),
            ),
    {
        let value = self.value.take();
        match value {
            Some(value) => {
                let outcome = self.inner.try_set_value(value);
                proof {
                    let granted = choose|granted: bool| outcome == write_result(granted, value);
                    assert(write_step(Some(value), granted) == settled(outcome));
                }
                let (left, progress) = settle(outcome);
                self.value = left;
                progress
            },
            None => {
                assert(write_step(None::<T>, true) == (None::<T>, Progress::Ready(())));
                Progress::Ready(())
            },
        }
    }
}

} // verus!
