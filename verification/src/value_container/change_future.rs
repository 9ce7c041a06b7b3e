//! The suspending operation that waits for the next change.
use vstd::prelude::*;

use super::inner::ValueContainerInner;
use crate::cell::lends_only;
use crate::cell::lent;
use crate::cell::read_result;
use crate::cell::refused;
use crate::cell::registration_made;
use crate::cell::waker_of;
use portable_atomic_util::Arc;
use rtic_sync::arbiter::Arbiter;
use crate::progress::Progress;
use core::task::Context;
use vstd::std_specs::cmp::PartialEqSpec;

verus! {

/// Completes with the value in the shared slot once that value differs from
/// the baseline. Without a baseline the first drive takes one from the slot.
#[must_use]
#[verifier::reject_recursive_types(T)]
pub struct ChangeFuture<'a, T> {
    initial_value: Option<T>,
    inner: &'a ValueContainerInner<T>,
}

/// `current` counts as a change from `baseline` when the type's equality
/// tells them apart.
pub open spec fn differs<T: PartialEq>(current: T, baseline: T) -> bool {
    !current.eq_spec(&baseline)
}

/// True when `value` may be what a drive with this baseline completes with,
/// having read `current` from the slot: `current` differs from the baseline
/// and `value` is its clone.
pub open spec fn completes_with<T: PartialEq + Clone>(baseline: T, current: T, value: T) -> bool {
    &&& cloned(current, value)
    &&& T::obeys_eq_spec() ==> differs(current, baseline)
}

/// True when a drive with this baseline may stay pending, having read
/// `current` from the slot: `current` does not differ from the baseline.
pub open spec fn stays_with<T: PartialEq>(baseline: T, current: T) -> bool {
    T::obeys_eq_spec() ==> !differs(current, baseline)
}

/// What a look for a change in `shared` returns. Without a baseline it
/// returns nothing. With one, it returns a value only if the attempt to access
/// the cell was granted and lent a value that differs from the baseline, of
/// which the result is a clone; and it returns nothing only if the attempt was
/// refused, or was granted and lent a value that does not differ.
pub open spec fn changed_result<T: PartialEq + Clone>(
    baseline: Option<T>,
    shared: Arc<Arbiter<T>>,
    res: Option<T>,
) -> bool {
    match baseline {
        None => res is None,
        Some(baseline) => match res {
            Some(value) => exists|current: T| #[trigger]
                lent(shared, current) && completes_with(baseline, current, value),
            None => refused(shared) || exists|current: T| #[trigger]
                lent(shared, current) && stays_with(baseline, current),
        },
    }
}

/// Compares the value read from the slot with the baseline: a clone of
/// `current` if the two differ, and nothing if they are equal.
pub fn changed_from<T>(baseline: &T, current: &T) -> (res: Option<T>) where T: Clone + PartialEq<T>
    ensures
        T::obeys_eq_spec() ==> (res is Some <==> differs(*current, *baseline)),
        res matches Some(value) ==> completes_with(*baseline, *current, value),
        res is None ==> stays_with(*baseline, *current),
{
    if *current != *baseline {
        Some(current.clone())
    } else {
        None
    }
}

/// Reads the shared slot without blocking and reports its value if that
/// differs from the baseline. There is nothing to report without a baseline,
/// while the slot is held elsewhere, and while the value equals the baseline.
///
/// What the contract says of a slot holds of the cell, not of this call
/// alone: see [`crate::cell`].
pub fn get_changed<T>(initial_value: Option<&T>, inner: &ValueContainerInner<T>) -> (res: Option<
    T,
>) where T: Clone + PartialEq<T>
    ensures
        changed_result(
            match initial_value {
                Some(baseline) => Some(*baseline),
                None => None,
            },
            inner.value,
            res,
        ),
{
    let baseline = initial_value?;
    let cell: &Arbiter<T> = &*inner.value;
    let inner_value = cell.try_access()?;
    let current: &T = &*inner_value;
    assert(lent(inner.value, *current));
    changed_from(baseline, current)
}

/// What a look for a change finds in a slot that refuses no attempt and
/// lends nothing but `value`, for a type whose equality obeys its
/// specification: a clone of `value` if `value` differs from the baseline,
/// and nothing if it does not. So a wait completes with a value that differs
/// and never on one that does not. `res` stands for what [`get_changed`]
/// returned, or for the value that a drive with this baseline completed with.
///
/// The two conditions speak of the cell for good: see [`crate::cell`].
pub proof fn lemma_look_finds_the_only_value<T: Clone + PartialEq>(
    baseline: T,
    shared: Arc<Arbiter<T>>,
    value: T,
    res: Option<T>,
)
    requires
        changed_result(Some(baseline), shared, res),
        !refused(shared),
        lends_only(shared, value),
        T::obeys_eq_spec(),
    ensures
        differs(value, baseline) ==> (res matches Some(found) && cloned(value, found)),
        !differs(value, baseline) ==> res is None,
{
}

impl<'a, T> ChangeFuture<'a, T> {
    /// The value that the slot is compared with, once there is one.
    pub closed spec fn baseline(&self) -> Option<T> {
        self.initial_value
    }

    /// The shared state that is watched.
    pub closed spec fn source(&self) -> &'a ValueContainerInner<T> {
        self.inner
    }
}

impl<'a, T> ChangeFuture<'a, T> where T: Clone {
    /// A wait on the watched value behind `inner`, with `initial_value` as
    /// its baseline.
    pub fn new(initial_value: Option<T>, inner: &'a ValueContainerInner<T>) -> (res: Self)
        ensures
            res.baseline() == initial_value,
            res.source() == inner,
    {
        Self { initial_value, inner }
    }
}

impl<'a, T> ChangeFuture<'a, T> where T: Clone + PartialEq<T> {
    /// Drives the wait once.
    ///
    /// Without a baseline the drive only takes one: it reads the slot, keeps
    /// what it read (nothing, if the slot was held elsewhere), registers no
    /// waker and stays pending. With a baseline the drive completes exactly
    /// when it can read the slot and finds a value that differs from the
    /// baseline; otherwise it registers the waker of `cx` and stays pending.
    /// A baseline, once there, never changes.
    ///
    /// A drive that has a baseline and stays pending leaves a clone of the
    /// wake handle of `cx` in the wake slot, unless the wake slot refuses an
    /// attempt.
    ///
    /// What the contract says of a slot holds of the cell, not of this call
    /// alone: see [`crate::cell`].
    pub fn poll(&mut self, cx: &mut Context<'_>) -> (res: Progress<T>)
        ensures
            final(self).source() == old(self).source(),
            old(self).baseline() is None ==> res is Pending,
            old(self).baseline() is Some ==> final(self).baseline() == old(self).baseline(),
            match old(self).baseline() {
                None => read_result(old(self).source().value, final(self).baseline()),
                Some(baseline) => changed_result(
                    Some(baseline),
                    old(self).source().value,
                    match res {
                        Progress::Ready(value) => Some(value),
                        Progress::Pending => None,
                    },
                ),
            },
            old(self).baseline() is Some && res is Pending ==> registration_made(
                old(self).source().waker,
                *old(cx),
            ),
    {
        if self.initial_value.is_none() {
            self.initial_value = self.inner.try_get_value();
            return Progress::Pending;
        }
        match get_changed(self.initial_value.as_ref(), self.inner) {
            Some(value) => Progress::Ready(value),
            _ => {
                let handle = cx.waker().clone();
                assert(waker_of(*cx, handle));
                self.inner.set_waker(handle);
                Progress::Pending
            },
        }
    }
}

} // verus!
