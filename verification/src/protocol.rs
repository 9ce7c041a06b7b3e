//! An abstract model of the shared state, and the laws of the protocol.
//!
//! The primitives reach their shared state only through non-blocking attempts
//! on arbiter cells, so no function of theirs can say what a cell holds at a
//! given moment. This module says it in the abstract. A [`Slot`] is a cell as
//! its users see it: a value, and whether some other access holds it right
//! now. [`Shared`] puts a value slot and a wake slot together, as both
//! primitives do, and describes each of their operations as a step from one
//! state to the next.
//!
//! Every law below holds of this model, and of the model alone. The steps are
//! written down here, not derived from the executable operations: they share
//! with the contracts of those operations the functions that turn an answer
//! of a cell into a result, and nothing else. No proof ties a step to the
//! function it describes, because the contracts speak of what a cell may
//! answer (see [`crate::cell`]) and never of a state that a cell is in. A
//! law is a statement about the executable operations only as far as the
//! cells behave as a slot does, which nothing here proves. What the
//! contracts themselves imply, of a cell that refuses no attempt and lends
//! one value only, is proved beside the operations.
//!
//! The model is deliberately plain. An operation is one step: a delivery
//! stores and signals at once. A value that is read is the value itself,
//! where the executable operations hand out a clone. `W` stands for whatever
//! identifies a wake handle.
use vstd::prelude::*;

use crate::async_option::inner::delivery_result;
use crate::async_option::inner::wait_progress;
use crate::progress::Progress;
use crate::value_container::change_future::differs;
use crate::value_container::inner::write_result;
use crate::value_container::set_value_future::write_step;

verus! {

/// A non-blocking cell as its users see it.
pub struct Slot<V> {
    /// What the cell holds.
    pub value: V,
    /// Whether some other access holds the cell right now.
    pub held: bool,
}

impl<V> Slot<V> {
    /// A cell that holds `value` and that nobody holds.
    pub open spec fn free(value: V) -> Self {
        Slot { value, held: false }
    }

    /// Whether an attempt to access the cell is granted.
    pub open spec fn granted(self) -> bool {
        !self.held
    }

    /// What a non-blocking read returns.
    pub open spec fn read(self) -> Option<V> {
        if self.granted() {
            Some(self.value)
        } else {
            None
        }
    }

    /// The cell after a non-blocking write of `value`.
    pub open spec fn written(self, value: V) -> Self {
        if self.granted() {
            Slot { value, held: self.held }
        } else {
            self
        }
    }
}

/// The shared state of a primitive: its value slot and its wake slot.
pub struct Shared<V, W> {
    /// The value slot.
    pub slot: Slot<V>,
    /// The wake slot: the wake handle that was registered last, if any.
    pub wake: Slot<Option<W>>,
}

/// What can happen to the shared state.
pub enum Event<V, W> {
    /// A non-blocking write of this value to the value slot, as a delivery
    /// or a `set_value` makes it.
    Write(V),
    /// A non-blocking registration of this wake handle in the wake slot, as
    /// a drive that suspends makes it.
    Register(W),
    /// Another context takes (`true`) or releases (`false`) the value slot.
    SlotHeld(bool),
    /// Another context takes (`true`) or releases (`false`) the wake slot.
    WakeHeld(bool),
}

impl<V, W> Shared<V, W> {
    /// The state that a constructor leaves: the given value, an empty wake
    /// slot, and nothing held.
    pub open spec fn new(value: V) -> Self {
        Shared { slot: Slot::free(value), wake: Slot::free(None) }
    }

    /// The wake handle that a signal invokes, if any: the one in the wake
    /// slot, if the wake slot can be had.
    pub open spec fn signalled(self) -> Option<W> {
        match self.wake.read() {
            Some(Some(waker)) => Some(waker),
            _ => None,
        }
    }

    /// The wake handle that a write invokes, if any: a write signals only
    /// when it was granted the value slot.
    pub open spec fn write_wakes(self) -> Option<W> {
        if self.slot.granted() {
            self.signalled()
        } else {
            None
        }
    }

    /// The state after one event.
    pub open spec fn after(self, event: Event<V, W>) -> Self {
        match event {
            Event::Write(value) => Shared { slot: self.slot.written(value), wake: self.wake },
            Event::Register(waker) => Shared {
                slot: self.slot,
                wake: self.wake.written(Some(waker)),
            },
            Event::SlotHeld(held) => Shared {
                slot: Slot { value: self.slot.value, held },
                wake: self.wake,
            },
            Event::WakeHeld(held) => Shared {
                slot: self.slot,
                wake: Slot { value: self.wake.value, held },
            },
        }
    }

    /// The state after these events, in this order.
    pub open spec fn after_all(self, events: Seq<Event<V, W>>) -> Self
        decreases events.len(),
    {
        if events.len() == 0 {
            self
        } else {
            self.after_all(events.drop_last()).after(events.last())
        }
    }
}

/// True when none of these events is a write.
pub open spec fn no_write<V, W>(events: Seq<Event<V, W>>) -> bool {
    forall|i: int| 0 <= i < events.len() ==> !(#[trigger] events[i] is Write)
}

/// True when one of these events is a write of `value`.
pub open spec fn writes<V, W>(events: Seq<Event<V, W>>, value: V) -> bool {
    exists|i: int| 0 <= i < events.len() && #[trigger] events[i] == Event::<V, W>::Write(value)
}

/// True when every write among these events is a delivery: it stores some
/// item, never the absence of one.
pub open spec fn writes_are_deliveries<T, W>(events: Seq<Event<Option<T>, W>>) -> bool {
    forall|i: int|
        0 <= i < events.len() ==> (#[trigger] events[i] matches Event::Write(value)
            ==> value is Some)
}

/// The operations of a single-slot deliverable.
impl<T, W> Shared<Option<T>, W> {
    /// What a delivery of `item` returns.
    pub open spec fn deliver_result(self, item: T) -> Result<(), T> {
        delivery_result(self.slot.granted(), item)
    }

    /// The state after a delivery of `item`.
    pub open spec fn after_deliver(self, item: T) -> Self {
        self.after(Event::Write(Some(item)))
    }

    /// What a non-blocking read for a waiter returns: the delivered item,
    /// or nothing while the slot is empty or held elsewhere.
    pub open spec fn observed(self) -> Option<T> {
        match self.slot.read() {
            Some(Some(item)) => Some(item),
            _ => None,
        }
    }

    /// What one drive of a wait reports.
    pub open spec fn wait_result(self) -> Progress<T> {
        wait_progress(self.observed())
    }

    /// The state after one drive of a wait by the task with this wake
    /// handle: a drive that stays pending registers the handle.
    pub open spec fn after_wait(self, waker: W) -> Self {
        if self.wait_result() is Pending {
            self.after(Event::Register(waker))
        } else {
            self
        }
    }

    /// The state after the tasks with these wake handles have each driven
    /// their wait once, in this order.
    pub open spec fn after_waits(self, wakers: Seq<W>) -> Self
        decreases wakers.len(),
    {
        if wakers.len() == 0 {
            self
        } else {
            self.after_waits(wakers.drop_last()).after_wait(wakers.last())
        }
    }

    /// What the drive of the `i`-th of these tasks reports, when each drives
    /// its wait once in this order.
    pub open spec fn wait_result_of(self, wakers: Seq<W>, i: int) -> Progress<T> {
        self.after_waits(wakers.take(i)).wait_result()
    }
}

/// The operations of a watched value.
impl<V: PartialEq, W> Shared<V, W> {
    /// What a write of `value` returns.
    pub open spec fn set_result(self, value: V) -> Result<(), V> {
        write_result(self.slot.granted(), value)
    }

    /// The state after a write of `value`.
    pub open spec fn after_set(self, value: V) -> Self {
        self.after(Event::Write(value))
    }

    /// What one drive of a deferred write reports, and what it leaves to
    /// write, for an operation that has `left` to write.
    pub open spec fn retry_result(self, left: Option<V>) -> (Option<V>, Progress<()>) {
        write_step(left, self.slot.granted())
    }

    /// The state after one drive of a deferred write.
    pub open spec fn after_retry(self, left: Option<V>) -> Self {
        match left {
            Some(value) => self.after_set(value),
            None => self,
        }
    }

    /// What one drive of a wait for change reports, for a wait with this
    /// baseline.
    pub open spec fn change_result(self, baseline: Option<V>) -> Progress<V> {
        match baseline {
            None => Progress::Pending,
            Some(baseline) => match self.slot.read() {
                Some(current) => if differs(current, baseline) {
                    Progress::Ready(current)
                } else {
                    Progress::Pending
                },
                None => Progress::Pending,
            },
        }
    }

    /// The baseline of a wait after one drive: a wait without a baseline
    /// takes what it can read, and a baseline stays once it is there.
    pub open spec fn baseline_after(self, baseline: Option<V>) -> Option<V> {
        match baseline {
            None => self.slot.read(),
            Some(baseline) => Some(baseline),
        }
    }

    /// The state after one drive of a wait for change by the task with this
    /// wake handle: a drive that has a baseline and stays pending registers
    /// the handle.
    pub open spec fn after_change_wait(self, baseline: Option<V>, waker: W) -> Self {
        if baseline is Some && self.change_result(baseline) is Pending {
            self.after(Event::Register(waker))
        } else {
            self
        }
    }
}

/// Whatever happens in between, the value slot holds its first value or a
/// value that one of the events wrote: values pass through unchanged.
pub proof fn lemma_value_was_written<V, W>(state: Shared<V, W>, events: Seq<Event<V, W>>)
    ensures
        state.after_all(events).slot.value == state.slot.value || writes(
            events,
            state.after_all(events).slot.value,
        ),
    decreases events.len(),
{
    if events.len() > 0 {
        let earlier = events.drop_last();
        let value = state.after_all(events).slot.value;
        lemma_value_was_written(state, earlier);
        if events.last() == Event::<V, W>::Write(value) {
            assert(events[events.len() - 1] == Event::<V, W>::Write(value));
        } else if value != state.slot.value {
            assert(state.after_all(earlier).slot.value == value);
            let i = choose|i: int|
                0 <= i < earlier.len() && #[trigger] earlier[i] == Event::<V, W>::Write(value);
            assert(events[i] == Event::<V, W>::Write(value));
        }
    }
}

/// Without a write the value slot keeps its value, however often it is
/// taken and released and whoever registers a wake handle.
pub proof fn lemma_value_stays_without_write<V, W>(state: Shared<V, W>, events: Seq<Event<V, W>>)
    requires
        no_write(events),
    ensures
        state.after_all(events).slot.value == state.slot.value,
    decreases events.len(),
{
    if events.len() > 0 {
        let earlier = events.drop_last();
        assert forall|i: int| 0 <= i < earlier.len() implies !(#[trigger] earlier[i] is Write) by {
            assert(earlier[i] == events[i]);
        }
        lemma_value_stays_without_write(state, earlier);
        assert(!(events[events.len() - 1] is Write));
    }
}

/// The value slot holds the value of the write that was granted last: a
/// granted write stores its value, and the value then stays until the next
/// write.
pub proof fn lemma_slot_holds_last_write<V, W>(
    state: Shared<V, W>,
    value: V,
    events: Seq<Event<V, W>>,
)
    requires
        state.slot.granted(),
        no_write(events),
    ensures
        state.after(Event::Write(value)).after_all(events).slot.value == value,
{
    lemma_value_stays_without_write(state.after(Event::Write(value)), events);
}

/// The wake slot keeps one wake handle, the one that was registered last:
/// a registration that is granted the wake slot replaces whatever handle was
/// there, and one that is not granted it changes nothing.
pub proof fn lemma_registration_overwrites<V, W>(state: Shared<V, W>, waker: W)
    ensures
        !state.wake.held ==> state.after(Event::Register(waker)).signalled() == Some(waker),
        state.wake.held ==> state.after(Event::Register(waker)) == state,
        state.after(Event::Register(waker)).slot == state.slot,
{
}

/// A delivery is never undone: once the value slot of a deliverable holds
/// an item it holds one for ever, whatever deliveries, drives and accesses
/// follow.
pub proof fn lemma_delivery_is_never_undone<T, W>(
    state: Shared<Option<T>, W>,
    events: Seq<Event<Option<T>, W>>,
)
    requires
        state.slot.value is Some,
        writes_are_deliveries(events),
    ensures
        state.after_all(events).slot.value is Some,
{
    lemma_value_was_written(state, events);
    let value = state.after_all(events).slot.value;
    if value != state.slot.value {
        let i = choose|i: int|
            0 <= i < events.len() && #[trigger] events[i] == Event::<Option<T>, W>::Write(value);
        assert(events[i] matches Event::Write(v) ==> v is Some);
    }
}

/// A wait completes only with an item that the deliverable was made with
/// or that was delivered since.
pub proof fn lemma_wait_completes_with_a_delivery<T, W>(
    state: Shared<Option<T>, W>,
    events: Seq<Event<Option<T>, W>>,
    item: T,
)
    requires
        state.after_all(events).wait_result() == Progress::Ready(item),
    ensures
        state.slot.value == Some(item) || writes(events, Some(item)),
{
    lemma_value_was_written(state, events);
}

/// A wait on a deliverable that was made with an item completes with that
/// item on its first drive, and registers no wake handle: it never suspends.
pub proof fn lemma_prefilled_wait_completes<T, W>(item: T, waker: W)
    ensures
        Shared::<Option<T>, W>::new(Some(item)).wait_result() == Progress::Ready(item),
        Shared::<Option<T>, W>::new(Some(item)).after_wait(waker) == Shared::<Option<T>, W>::new(
            Some(item),
        ),
{
}

/// A wait on a deliverable that was made without an item stays pending on
/// its first drive and registers its wake handle.
pub proof fn lemma_empty_wait_suspends<T, W>(waker: W)
    ensures
        Shared::<Option<T>, W>::new(None).wait_result() is Pending,
        Shared::<Option<T>, W>::new(None).after_wait(waker).signalled() == Some(waker),
{
}

/// A delivery that finds the value slot held elsewhere returns the item as
/// it was, stores nothing and wakes nobody.
pub proof fn lemma_contended_delivery_hands_back<T, W>(state: Shared<Option<T>, W>, item: T)
    requires
        state.slot.held,
    ensures
        state.deliver_result(item) == Err::<(), T>(item),
        state.after_deliver(item) == state,
        state.write_wakes() is None,
{
}

/// A delivery that finds the value slot free succeeds, leaves the item in
/// the slot and everything else as it was, and invokes the wake handle that
/// was registered last, provided that the wake slot can be had.
pub proof fn lemma_delivery_stores_and_wakes<T, W>(state: Shared<Option<T>, W>, item: T)
    requires
        !state.slot.held,
    ensures
        state.deliver_result(item) == Ok::<(), T>(()),
        state.after_deliver(item).slot == Slot::free(Some(item)),
        state.after_deliver(item).wake == state.wake,
        state.write_wakes() == state.signalled(),
{
}

/// Round trip: a wait that is driven right after a successful delivery
/// completes with the very item that was delivered.
pub proof fn lemma_delivery_round_trip<T, W>(state: Shared<Option<T>, W>, item: T)
    requires
        state.deliver_result(item) is Ok,
    ensures
        state.after_deliver(item).wait_result() == Progress::Ready(item),
{
}

/// A delivery overwrites: after two successful deliveries a wait completes
/// with the later item.
pub proof fn lemma_later_delivery_wins<T, W>(state: Shared<Option<T>, W>, first: T, second: T)
    requires
        state.deliver_result(first) is Ok,
    ensures
        state.after_deliver(first).deliver_result(second) is Ok,
        state.after_deliver(first).after_deliver(second).wait_result() == Progress::Ready(second),
{
}

/// A delivery outlasts contention: after a successful delivery, and until
/// the next one, every drive of a wait that finds the value slot free
/// completes with the delivered item, whatever was taken, released or
/// registered in between.
pub proof fn lemma_delivery_outlasts_contention<T, W>(
    state: Shared<Option<T>, W>,
    item: T,
    events: Seq<Event<Option<T>, W>>,
)
    requires
        state.deliver_result(item) is Ok,
        no_write(events),
        state.after_deliver(item).after_all(events).slot.granted(),
    ensures
        state.after_deliver(item).after_all(events).wait_result() == Progress::Ready(item),
{
    lemma_value_stays_without_write(state.after_deliver(item), events);
}

/// Drives of waits change neither the value slot nor who holds the wake
/// slot.
pub proof fn lemma_waits_keep_slot<T, W>(state: Shared<Option<T>, W>, wakers: Seq<W>)
    ensures
        state.after_waits(wakers).slot == state.slot,
        state.after_waits(wakers).wake.held == state.wake.held,
    decreases wakers.len(),
{
    if wakers.len() > 0 {
        lemma_waits_keep_slot(state, wakers.drop_last());
    }
}

/// While the value slot is empty every waiter of a group stays pending, and
/// once all of them have been driven a signal invokes the wake handle of the
/// one that was driven last, if the wake slot can be had.
pub proof fn lemma_waiters_suspend<T, W>(state: Shared<Option<T>, W>, wakers: Seq<W>)
    requires
        state.slot.value is None,
    ensures
        forall|i: int| 0 <= i < wakers.len() ==> state.wait_result_of(wakers, i) is Pending,
        wakers.len() > 0 && !state.wake.held ==> state.after_waits(wakers).signalled() == Some(
            wakers.last(),
        ),
{
    assert forall|i: int| 0 <= i < wakers.len() implies state.wait_result_of(
        wakers,
        i,
    ) is Pending by {
        lemma_waits_keep_slot(state, wakers.take(i));
    }
    if wakers.len() > 0 {
        lemma_waits_keep_slot(state, wakers.drop_last());
    }
}

/// Liveness of a group of waiters: after a successful delivery, every
/// waiter of the group completes with the delivered item when the group is
/// driven again, in whatever order its members are driven.
pub proof fn lemma_waiters_complete_after_delivery<T, W>(
    state: Shared<Option<T>, W>,
    item: T,
    wakers: Seq<W>,
)
    requires
        state.deliver_result(item) is Ok,
    ensures
        forall|i: int|
            0 <= i < wakers.len() ==> state.after_deliver(item).wait_result_of(wakers, i)
                == Progress::Ready(item),
        state.after_deliver(item).after_waits(wakers) == state.after_deliver(item),
{
    let delivered = state.after_deliver(item);
    lemma_completed_waits_change_nothing(delivered, item, wakers);
    assert forall|i: int| 0 <= i < wakers.len() implies delivered.wait_result_of(wakers, i)
        == Progress::Ready(item) by {
        lemma_completed_waits_change_nothing(delivered, item, wakers.take(i));
    }
}

/// Drives of waits that find an item in a free value slot leave the state
/// as it was.
pub proof fn lemma_completed_waits_change_nothing<T, W>(
    state: Shared<Option<T>, W>,
    item: T,
    wakers: Seq<W>,
)
    requires
        state.slot == Slot::free(Some(item)),
    ensures
        state.after_waits(wakers) == state,
    decreases wakers.len(),
{
    if wakers.len() > 0 {
        lemma_completed_waits_change_nothing(state, item, wakers.drop_last());
    }
}

/// The whole course of a one-shot broadcast. A group of waiters is driven
/// on a fresh, empty deliverable: all suspend. A delivery then succeeds and
/// invokes the wake handle of the waiter that was driven last. When the group
/// is driven again, every waiter completes with the delivered item.
pub proof fn lemma_broadcast<T, W>(item: T, wakers: Seq<W>)
    requires
        wakers.len() > 0,
    ensures
        forall|i: int|
            0 <= i < wakers.len() ==> Shared::<Option<T>, W>::new(None).wait_result_of(wakers, i)
                is Pending,
        Shared::<Option<T>, W>::new(None).after_waits(wakers).deliver_result(item) is Ok,
        Shared::<Option<T>, W>::new(None).after_waits(wakers).write_wakes() == Some(wakers.last()),
        forall|i: int|
            0 <= i < wakers.len() ==> Shared::<Option<T>, W>::new(None).after_waits(
                wakers,
            ).after_deliver(item).wait_result_of(wakers, i) == Progress::Ready(item),
{
    let fresh = Shared::<Option<T>, W>::new(None);
    lemma_waiters_suspend(fresh, wakers);
    lemma_waits_keep_slot(fresh, wakers);
    lemma_waiters_complete_after_delivery(fresh.after_waits(wakers), item, wakers);
}

/// A wait for change whose baseline the value in the slot does not differ
/// from stays pending, whether or not the slot can be read, and leaves the
/// value slot as it was: without a write it stays pending for ever.
pub proof fn lemma_unchanged_value_stays_pending<V: PartialEq, W>(
    state: Shared<V, W>,
    baseline: V,
    waker: W,
)
    requires
        !differs(state.slot.value, baseline),
    ensures
        state.change_result(Some(baseline)) is Pending,
        state.after_change_wait(Some(baseline), waker).slot == state.slot,
        state.baseline_after(Some(baseline)) == Some(baseline),
{
}

/// A wait for change stays pending until a write supplies a value that
/// differs from its baseline: as long as nothing is written, it is pending
/// whatever was taken, released or registered in between.
pub proof fn lemma_wait_is_pending_until_a_write<V: PartialEq, W>(
    state: Shared<V, W>,
    baseline: V,
    events: Seq<Event<V, W>>,
)
    requires
        !differs(state.slot.value, baseline),
        no_write(events),
    ensures
        state.after_all(events).change_result(Some(baseline)) is Pending,
{
    lemma_value_stays_without_write(state, events);
}

/// A wait for change completes with the new value once a write has stored
/// a value that differs from the baseline.
pub proof fn lemma_change_completes_with_new_value<V: PartialEq, W>(
    state: Shared<V, W>,
    baseline: V,
    value: V,
)
    requires
        state.set_result(value) is Ok,
        differs(value, baseline),
    ensures
        state.after_set(value).change_result(Some(baseline)) == Progress::Ready(value),
{
}

/// A wait for change completes only with a value that it read from the
/// slot and that differs from its baseline.
pub proof fn lemma_completion_is_a_change<V: PartialEq, W>(
    state: Shared<V, W>,
    baseline: Option<V>,
    value: V,
)
    requires
        state.change_result(baseline) == Progress::Ready(value),
    ensures
        baseline is Some,
        differs(value, baseline.unwrap()),
        state.slot.read() == Some(value),
{
}

/// Writes of values that do not differ from the baseline never complete a
/// wait for change: after two of them in a row, each granted or not, a wait
/// that was pending is pending still.
pub proof fn lemma_equal_writes_stay_pending<V: PartialEq, W>(
    state: Shared<V, W>,
    baseline: V,
    first: V,
    second: V,
)
    requires
        !differs(state.slot.value, baseline),
        !differs(first, baseline),
        !differs(second, baseline),
    ensures
        state.after_set(first).change_result(Some(baseline)) is Pending,
        state.after_set(first).after_set(second).change_result(Some(baseline)) is Pending,
{
}

/// True when none of these events writes a value that differs from
/// `baseline`.
pub open spec fn writes_equal<V: PartialEq, W>(events: Seq<Event<V, W>>, baseline: V) -> bool {
    forall|i: int|
        0 <= i < events.len() ==> (#[trigger] events[i] matches Event::Write(value) ==> !differs(
            value,
            baseline,
        ))
}

/// Only a value that differs from the baseline completes a wait for change:
/// however many values that do not differ are written, and whatever else
/// happens, a wait that was pending is pending still.
pub proof fn lemma_equal_writes_never_complete<V: PartialEq, W>(
    state: Shared<V, W>,
    baseline: V,
    events: Seq<Event<V, W>>,
)
    requires
        !differs(state.slot.value, baseline),
        writes_equal(events, baseline),
    ensures
        state.after_all(events).change_result(Some(baseline)) is Pending,
{
    lemma_value_was_written(state, events);
    let value = state.after_all(events).slot.value;
    if value != state.slot.value {
        let i = choose|i: int|
            0 <= i < events.len() && #[trigger] events[i] == Event::<V, W>::Write(value);
        assert(events[i] matches Event::Write(v) ==> !differs(v, baseline));
    }
}

/// A wait without a baseline spends its first drive on taking one: it stays
/// pending, registers no wake handle, and its baseline becomes what the slot
/// holds, or stays open when the slot is held elsewhere.
pub proof fn lemma_first_drive_takes_baseline<V: PartialEq, W>(state: Shared<V, W>, waker: W)
    ensures
        state.change_result(None) is Pending,
        state.after_change_wait(None, waker) == state,
        state.baseline_after(None) == state.slot.read(),
{
}

/// A write is never given up. While the slot is held elsewhere a drive
/// keeps the value and stays pending; the first drive that finds the slot free
/// stores that value and completes; a completed write stays complete and
/// writes nothing more.
pub proof fn lemma_deferred_write_lands<V: PartialEq, W>(state: Shared<V, W>, value: V)
    ensures
        state.slot.held ==> state.retry_result(Some(value)) == (
            Some(value),
            Progress::<()>::Pending,
        ) && state.after_retry(Some(value)) == state,
        !state.slot.held ==> state.retry_result(Some(value)) == (None::<V>, Progress::Ready(()))
            && state.after_retry(Some(value)).slot.value == value,
        state.retry_result(None) == (None::<V>, Progress::Ready(())),
        state.after_retry(None) == state,
{
}

/// The course of one change. A waiter is driven on a fresh watched value
/// with that value as its baseline: it suspends. A write of a value that
/// differs then succeeds and invokes the waiter's wake handle. When the waiter
/// is driven again, it completes with the new value.
pub proof fn lemma_watch<V: PartialEq, W>(initial: V, value: V, waker: W)
    requires
        !differs(initial, initial),
        differs(value, initial),
    ensures
        Shared::<V, W>::new(initial).change_result(Some(initial)) is Pending,
        Shared::<V, W>::new(initial).after_change_wait(Some(initial), waker).set_result(value)
            is Ok,
        Shared::<V, W>::new(initial).after_change_wait(Some(initial), waker).write_wakes() == Some(
            waker,
        ),
        Shared::<V, W>::new(initial).after_change_wait(Some(initial), waker).after_set(
            value,
        ).change_result(Some(initial)) == Progress::Ready(value),
{
}

} // verus!
