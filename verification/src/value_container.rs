//! The watched value.
use vstd::prelude::*;

pub mod change_future;
pub mod inner;
pub mod set_value_future;

use change_future::ChangeFuture;
use inner::ValueContainerInner;
use set_value_future::attempted;
use set_value_future::SetValueFuture;

verus! {

/// A handle on a value that any task can read, replace, or wait on for its
/// next change. Each handle keeps the value that it observed last; cloning a
/// handle gives another handle on the same shared slot.
#[verifier::reject_recursive_types(V)]
pub struct ValueContainer<V> {
    /// The value that this handle observed last.
    pub value: V,
    /// The shared state.
    pub inner: ValueContainerInner<V>,
}

impl<V> ValueContainer<V> {
    /// The value that this handle observed last.
    pub open spec fn cached(&self) -> V {
        self.value
    }
}

impl<V> ValueContainer<V> where V: Clone {
    /// A watched value that starts as `value`: the handle caches `value`
    /// itself and the shared slot gets a clone of it.
    pub fn new(value: V) -> (res: Self)
        ensures
            res.cached() == value,
            exists|copy: V| cloned(value, copy) && #[trigger] res.inner.fresh(copy),
    {
        let copy = value.clone();
        let ghost made = copy;
        let inner = ValueContainerInner::new(copy);
        let res = Self { value, inner };
        assert(cloned(res.value, made) && res.inner.fresh(made));
        res
    }

    /// A clone of the value that this handle observed last. The shared slot
    /// is not touched.
    pub fn get_value(&self) -> (res: V)
        ensures
            cloned(self.cached(), res),
    {
        self.value.clone()
    }

    /// Makes `value` the handle's cached value at once and tries to write a
    /// clone of it to the shared slot. The returned operation has nothing
    /// left to do when that write went through, and carries the clone until
    /// it does otherwise.
    ///
    /// With nothing left the slot lends a clone of `value` and a signal was
    /// made on the wake slot; with the clone left the slot refuses an attempt.
    ///
    /// What the contract says of a slot holds of the cell, not of this call
    /// alone: see [`crate::cell`].
    pub fn set_value(&mut self, value: V) -> (res: SetValueFuture<'_, V>)
        ensures
            final(self).cached() == value,
            final(self).inner == old(self).inner,
            res.target() == &old(self).inner,
            exists|copy: V|
                cloned(value, copy) && #[trigger] attempted(old(self).inner, copy, res.left()),
    {
        self.value = value;
        SetValueFuture::new(self.value.clone(), &self.inner)
    }

    /// A suspending operation that completes once the shared slot holds a
    /// value that differs from this handle's cached value. Its baseline is a
    /// clone of the cached value, taken now.
    pub fn wait_for_change(&self) -> (res: ChangeFuture<'_, V>) where V: PartialEq<V>
        ensures
            res.source() == &self.inner,
            res.baseline() matches Some(baseline) && cloned(self.cached(), baseline),
    {
        ChangeFuture::new(Some(self.value.clone()), &self.inner)
    }
}

impl<V> Clone for ValueContainer<V> where V: Clone {
    /// Another handle on the same watched value, with a clone of this
    /// handle's cached value.
    fn clone(&self) -> (res: Self)
        ensures
            cloned(self.cached(), res.cached()),
            res.inner == self.inner,
    {
        Self { value: self.value.clone(), inner: self.inner.clone() }
    }
}

/// What `get_value` returns right after `new(value)` is a clone of `value`:
/// for a type whose clone is an exact copy, it is `value` itself.
pub proof fn lemma_get_value_after_new<V: Clone>(value: V, handle: ValueContainer<V>, got: V)
    requires
        call_ensures(ValueContainer::<V>::new, (value,), handle),
        call_ensures(ValueContainer::<V>::get_value, (&handle,), got),
    ensures
        cloned(value, got),
{
}

} // verus!
