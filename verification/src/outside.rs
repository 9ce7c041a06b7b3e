//! The outside building blocks: the arbiter cell, its access token, the
//! reference-counted pointer that shares it, and the scheduler's wake handle.
//!
//! Nothing in this file is proved. Each item declares that an outside type
//! or function exists and may be used. Two of them promise something: the
//! clone of a pointer is the same pointer, and an access token hands out the
//! same place for reading and for writing. None of the others promises
//! anything about a result, because what an arbiter grants and what a cell
//! holds depend on what other contexts are doing at that moment.
use vstd::prelude::*;

verus! {

/// `rtic_sync::arbiter::Arbiter`: a cell that grants exclusive access to its
/// value to one holder at a time. Declared opaque.
#[verifier::external_type_specification]
#[verifier::external_body]
#[verifier::reject_recursive_types(T)]
pub struct ExArbiter<T>(rtic_sync::arbiter::Arbiter<T>);

/// `rtic_sync::arbiter::ExclusiveAccess`: the token that stands for exclusive
/// access to an arbiter's value; dropping it releases the arbiter. Declared
/// opaque.
#[verifier::external_type_specification]
#[verifier::external_body]
#[verifier::reject_recursive_types(T)]
pub struct ExExclusiveAccess<'a, T>(rtic_sync::arbiter::ExclusiveAccess<'a, T>);

/// `portable_atomic_util::Arc`: a thread-safe reference-counted pointer.
/// Declared opaque.
#[verifier::external_type_specification]
#[verifier::external_body]
#[verifier::reject_recursive_types(T)]
pub struct ExArc<T: ?Sized>(portable_atomic_util::Arc<T>);

/// `core::task::Waker`: the handle that tells a scheduler to drive a task
/// again. Declared opaque.
#[verifier::external_type_specification]
#[verifier::external_body]
pub struct ExWaker(core::task::Waker);

/// `core::task::Context`: what a scheduler hands to an operation that it
/// drives. Declared opaque.
#[verifier::external_type_specification]
#[verifier::external_body]
pub struct ExContext<'a>(core::task::Context<'a>);

/// `Arbiter::new` builds a cell around `inner`. Nothing is claimed of the
/// result.
pub assume_specification<T>[ rtic_sync::arbiter::Arbiter::<T>::new ](
    inner: T,
) -> (cell: rtic_sync::arbiter::Arbiter<T>);

/// `Arbiter::try_access` returns at once: a token if nobody holds the cell
/// and nobody queues for it, and `None` otherwise. Which of the two comes back
/// depends on the other contexts, so nothing is claimed of the result.
pub assume_specification<T>[ rtic_sync::arbiter::Arbiter::<T>::try_access ](
    cell: &rtic_sync::arbiter::Arbiter<T>,
) -> (access: Option<rtic_sync::arbiter::ExclusiveAccess<'_, T>>);

/// `Deref::deref` of `ExclusiveAccess` lends the value in the cell. Nothing
/// is claimed of that value.
pub assume_specification<'a, 'b, T>[ <rtic_sync::arbiter::ExclusiveAccess<'a, T> as core::ops::Deref>::deref ](
    access: &'b rtic_sync::arbiter::ExclusiveAccess<'a, T>,
) -> (value: &'b <rtic_sync::arbiter::ExclusiveAccess<'a, T> as core::ops::Deref>::Target);

/// `DerefMut::deref_mut` of `ExclusiveAccess` lends the value in the cell for
/// change. The token hands out the same place for reading and for writing, and
/// stays a token for the same cell. So two things are claimed of the token as
/// it is once the borrow has ended: reading through it may lend what the
/// borrow left in that place, and whatever cell `try_access` may have returned
/// the token for, it may return it for as it is then. Nothing is claimed of
/// what the place held when it was lent.
pub assume_specification<'a, 'b, T>[ <rtic_sync::arbiter::ExclusiveAccess<'a, T> as core::ops::DerefMut>::deref_mut ](
    access: &'b mut rtic_sync::arbiter::ExclusiveAccess<'a, T>,
) -> (value: &'b mut <rtic_sync::arbiter::ExclusiveAccess<'a, T> as core::ops::Deref>::Target)
    ensures
        call_ensures(
            <rtic_sync::arbiter::ExclusiveAccess<'a, T> as core::ops::Deref>::deref,
            (&*final(access),),
            &*final(value),
        ),
        forall|cell: &rtic_sync::arbiter::Arbiter<T>| #[trigger]
            call_ensures(rtic_sync::arbiter::Arbiter::<T>::try_access, (cell,), Some(*old(access)))
                ==> call_ensures(
                rtic_sync::arbiter::Arbiter::<T>::try_access,
                (cell,),
                Some(*final(access)),
            ),
;

/// `Arc::new` moves `data` to the heap behind a counted pointer. Nothing is
/// claimed of the result.
pub assume_specification<T>[ portable_atomic_util::Arc::<T>::new ](
    data: T,
) -> (pointer: portable_atomic_util::Arc<T>);

/// Cloning an `Arc` gives another pointer to the same allocation: the clone
/// is the same pointer value, so the two cannot be told apart.
pub assume_specification<T: ?Sized>[ <portable_atomic_util::Arc<T> as Clone>::clone ](
    pointer: &portable_atomic_util::Arc<T>,
) -> (other: portable_atomic_util::Arc<T>)
    ensures
        other == *pointer,
;

/// Dereferencing an `Arc` reaches the shared allocation. Nothing is claimed
/// of the reference that comes back.
pub assume_specification<T: ?Sized>[ <portable_atomic_util::Arc<T> as core::ops::Deref>::deref ](
    pointer: &portable_atomic_util::Arc<T>,
) -> (target: &<portable_atomic_util::Arc<T> as core::ops::Deref>::Target);

/// `Waker::wake_by_ref` tells the scheduler to drive the waker's task again.
/// It returns nothing.
pub assume_specification[ core::task::Waker::wake_by_ref ](waker: &core::task::Waker);

/// Cloning a `Waker` gives another handle for the same task. Nothing is
/// claimed of the result.
pub assume_specification[ <core::task::Waker as Clone>::clone ](
    waker: &core::task::Waker,
) -> (other: core::task::Waker);

/// `Context::waker` lends the waker of the task that is being driven. Nothing
/// is claimed of the result.
pub assume_specification<'a, 'b>[ core::task::Context::<'a>::waker ](
    cx: &'b core::task::Context<'a>,
) -> (waker: &'a core::task::Waker);

} // verus!
