use std::cell::RefCell;
use std::future::poll_fn;
use std::sync::atomic::AtomicUsize;
use std::sync::atomic::Ordering;
use std::sync::Arc;
use std::task::Context;
use std::task::Poll;
use std::task::Wake;
use std::task::Waker;

use async_std::prelude::FutureExt;
use async_std::task::block_on;
use async_std::task::yield_now;
use coop_sync::cell::read;
use coop_sync::cell::read_through;
use coop_sync::cell::signal;
use coop_sync::cell::store;
use coop_sync::value_container::change_future::changed_from;
use coop_sync::value_container::change_future::get_changed;
use coop_sync::value_container::change_future::ChangeFuture;
use coop_sync::value_container::inner::write_through;
use coop_sync::value_container::inner::ValueContainerInner;
use coop_sync::value_container::set_value_future::settle;
use coop_sync::value_container::set_value_future::SetValueFuture;
use coop_sync::AsyncOption;
use coop_sync::Progress;
use coop_sync::ValueContainer;

/// Counts how often its waker was invoked.
struct Bell {
    rings: AtomicUsize,
}

impl Wake for Bell {
    fn wake(self: Arc<Self>) {
        self.rings.fetch_add(1, Ordering::SeqCst);
    }
}

fn bell() -> (Arc<Bell>, Waker) {
    let bell = Arc::new(Bell { rings: AtomicUsize::new(0) });
    (bell.clone(), Waker::from(bell))
}

fn rings(bell: &Arc<Bell>) -> usize {
    bell.rings.load(Ordering::SeqCst)
}

fn drive<T: Clone + PartialEq>(wait: &mut ChangeFuture<'_, T>, waker: &Waker) -> Progress<T> {
    let mut cx = Context::from_waker(waker);
    wait.poll(&mut cx)
}

fn drive_set<T>(set: &mut SetValueFuture<'_, T>, waker: &Waker) -> Progress<()> {
    let mut cx = Context::from_waker(waker);
    set.poll(&mut cx)
}

#[test]
fn wait_completes_with_the_first_unequal_value() {
    let watcher = ValueContainer::new(0);
    let mut writer = watcher.clone();
    let (bell, waker) = bell();
    let mut wait = watcher.wait_for_change();

    assert_eq!(drive(&mut wait, &waker), Progress::Pending);
    assert_eq!(drive(&mut wait, &waker), Progress::Pending);
    assert_eq!(rings(&bell), 0);

    let _ = writer.set_value(1);
    assert_eq!(rings(&bell), 1);
    assert_eq!(drive(&mut wait, &waker), Progress::Ready(1));
}

#[test]
fn equal_writes_do_not_complete_a_wait() {
    let watcher = ValueContainer::new(0);
    let mut writer = watcher.clone();
    let (bell, waker) = bell();
    let mut wait = watcher.wait_for_change();
    assert_eq!(drive(&mut wait, &waker), Progress::Pending);

    let _ = writer.set_value(0);
    assert_eq!(drive(&mut wait, &waker), Progress::Pending);
    let _ = writer.set_value(0);
    assert_eq!(drive(&mut wait, &waker), Progress::Pending);
    // The writes did signal: a wake only means "look again".
    assert_eq!(rings(&bell), 2);

    let _ = writer.set_value(3);
    assert_eq!(drive(&mut wait, &waker), Progress::Ready(3));
}

#[test]
fn change_back_to_the_baseline_is_no_change() {
    let watcher = ValueContainer::new(0);
    let mut writer = watcher.clone();
    let (_bell, waker) = bell();
    let mut wait = watcher.wait_for_change();
    let _ = writer.set_value(1);
    let _ = writer.set_value(0);
    assert_eq!(drive(&mut wait, &waker), Progress::Pending);
}

#[test]
fn last_writer_wins() {
    let watcher = ValueContainer::new(0);
    let mut first = watcher.clone();
    let mut second = watcher.clone();
    let (_bell, waker) = bell();
    let mut wait = watcher.wait_for_change();
    let _ = first.set_value(1);
    let _ = second.set_value(2);
    assert_eq!(drive(&mut wait, &waker), Progress::Ready(2));
}

#[test]
fn baseline_is_the_cached_value_at_call_time() {
    let watcher = ValueContainer::new(0);
    let mut writer = watcher.clone();
    let _ = writer.set_value(5);
    // The watcher still caches 0, so the value that is already there counts
    // as a change.
    let (_bell, waker) = bell();
    let mut wait = watcher.wait_for_change();
    assert_eq!(drive(&mut wait, &waker), Progress::Ready(5));
}

#[test]
fn handles_cache_their_own_value() {
    let watcher = ValueContainer::new(String::from("a"));
    let mut writer = watcher.clone();
    let _ = writer.set_value(String::from("b"));
    assert_eq!(writer.get_value(), String::from("b"));
    assert_eq!(watcher.get_value(), String::from("a"));
    assert_eq!(watcher.inner.try_get_value(), Some(String::from("b")));
}

#[test]
fn cache_is_updated_even_when_the_write_is_deferred() {
    let mut value = ValueContainer::new(0);
    let inner = value.inner.clone();
    let access = inner.value.try_access().unwrap();
    let _ = value.set_value(1);
    assert_eq!(value.get_value(), 1);
    assert_eq!(*access, 0);
}

#[test]
fn contended_change_read_stays_pending() {
    let watcher = ValueContainer::new(0);
    let mut writer = watcher.clone();
    let (_bell, waker) = bell();
    let mut wait = watcher.wait_for_change();
    let _ = writer.set_value(1);

    let access = watcher.inner.value.try_access().unwrap();
    assert_eq!(drive(&mut wait, &waker), Progress::Pending);
    drop(access);
    assert_eq!(drive(&mut wait, &waker), Progress::Ready(1));
}

#[test]
fn deferred_write_is_retried_until_it_lands() {
    let watcher = ValueContainer::new(0);
    let mut writer = watcher.clone();
    let (bell, waker) = bell();
    let (_set_bell, set_waker) = self::bell();
    let mut wait = watcher.wait_for_change();
    assert_eq!(drive(&mut wait, &waker), Progress::Pending);

    let inner = watcher.inner.clone();
    let access = inner.value.try_access().unwrap();
    let mut set = writer.set_value(1);
    assert_eq!(drive_set(&mut set, &set_waker), Progress::Pending);
    assert_eq!(drive_set(&mut set, &set_waker), Progress::Pending);
    assert_eq!(*access, 0);
    assert_eq!(rings(&bell), 0);
    drop(access);

    assert_eq!(drive_set(&mut set, &set_waker), Progress::Ready(()));
    assert_eq!(rings(&bell), 1);
    assert_eq!(inner.try_get_value(), Some(1));
    // A completed write stays complete and writes nothing more.
    assert_eq!(drive_set(&mut set, &set_waker), Progress::Ready(()));
    assert_eq!(rings(&bell), 1);
    assert_eq!(drive(&mut wait, &waker), Progress::Ready(1));
}

#[test]
fn deferred_write_that_is_dropped_never_lands() {
    let watcher = ValueContainer::new(0);
    let mut writer = watcher.clone();
    let (_bell, waker) = bell();
    let mut wait = watcher.wait_for_change();

    let access = watcher.inner.value.try_access().unwrap();
    drop(writer.set_value(1));
    drop(access);

    assert_eq!(watcher.inner.try_get_value(), Some(0));
    assert_eq!(writer.get_value(), 1);
    assert_eq!(drive(&mut wait, &waker), Progress::Pending);
}

#[test]
fn write_that_lands_at_once_is_complete() {
    let mut writer = ValueContainer::new(0);
    let (_bell, waker) = bell();
    let inner = writer.inner.clone();
    let mut set = writer.set_value(1);
    assert_eq!(inner.try_get_value(), Some(1));
    assert_eq!(drive_set(&mut set, &waker), Progress::Ready(()));
}

#[test]
fn set_future_built_from_inner_state() {
    let inner = ValueContainerInner::new(0);
    let (_bell, waker) = bell();
    let mut set = SetValueFuture::new(4, &inner);
    assert_eq!(inner.try_get_value(), Some(4));
    assert_eq!(drive_set(&mut set, &waker), Progress::Ready(()));
}

#[test]
fn contended_write_hands_the_value_back() {
    let inner = ValueContainerInner::new(String::from("old"));
    let (bell, waker) = bell();
    inner.set_waker(waker);
    let access = inner.value.try_access().unwrap();
    assert_eq!(inner.try_set_value(String::from("new")), Err(String::from("new")));
    assert_eq!(*access, String::from("old"));
    assert_eq!(rings(&bell), 0);
    drop(access);
    assert_eq!(inner.try_set_value(String::from("new")), Ok(()));
    assert_eq!(rings(&bell), 1);
    assert_eq!(inner.try_get_value(), Some(String::from("new")));
}

#[test]
fn write_signal_is_dropped_while_the_wake_slot_is_held() {
    let inner = ValueContainerInner::new(0);
    let (bell, waker) = bell();
    inner.set_waker(waker);
    let access = inner.waker.try_access().unwrap();
    inner.wake();
    assert_eq!(inner.try_set_value(1), Ok(()));
    assert_eq!(rings(&bell), 0);
    drop(access);
    inner.wake();
    assert_eq!(rings(&bell), 1);
}

#[test]
fn wait_without_baseline_takes_one_on_its_first_drive() {
    let inner = ValueContainerInner::new(7);
    let (bell, waker) = bell();
    let mut wait = ChangeFuture::new(None, &inner);
    // The first drive only takes the baseline and registers no waker.
    assert_eq!(drive(&mut wait, &waker), Progress::Pending);
    assert_eq!(inner.try_set_value(7), Ok(()));
    assert_eq!(rings(&bell), 0);
    assert_eq!(drive(&mut wait, &waker), Progress::Pending);
    assert_eq!(inner.try_set_value(8), Ok(()));
    assert_eq!(rings(&bell), 1);
    assert_eq!(drive(&mut wait, &waker), Progress::Ready(8));
}

#[test]
fn wait_without_baseline_keeps_looking_for_one() {
    let inner = ValueContainerInner::new(7);
    let (_bell, waker) = bell();
    let mut wait = ChangeFuture::new(None, &inner);
    let access = inner.value.try_access().unwrap();
    assert_eq!(drive(&mut wait, &waker), Progress::Pending);
    drop(access);
    // Still without a baseline: this drive takes 7 as the baseline.
    assert_eq!(drive(&mut wait, &waker), Progress::Pending);
    assert_eq!(inner.try_set_value(9), Ok(()));
    assert_eq!(drive(&mut wait, &waker), Progress::Ready(9));
}

#[test]
fn wait_with_given_baseline() {
    let inner = ValueContainerInner::new(1);
    let (_bell, waker) = bell();
    let mut same = ChangeFuture::new(Some(1), &inner);
    let mut other = ChangeFuture::new(Some(2), &inner);
    assert_eq!(drive(&mut same, &waker), Progress::Pending);
    assert_eq!(drive(&mut other, &waker), Progress::Ready(1));
}

#[test]
fn changed_from_compares_with_the_baseline() {
    assert_eq!(changed_from(&1, &2), Some(2));
    assert_eq!(changed_from(&1, &1), None);
    assert_eq!(changed_from(&String::from("a"), &String::from("b")), Some(String::from("b")));
}

#[test]
fn get_changed_reads_the_slot() {
    let inner = ValueContainerInner::new(3);
    assert_eq!(get_changed(None, &inner), None);
    assert_eq!(get_changed(Some(&3), &inner), None);
    assert_eq!(get_changed(Some(&4), &inner), Some(3));
    let access = inner.value.try_access().unwrap();
    assert_eq!(get_changed(Some(&4), &inner), None);
    drop(access);
}

#[test]
fn read_clones_what_the_cell_holds() {
    let shared = portable_atomic_util::Arc::new(rtic_sync::arbiter::Arbiter::new(String::from("x")));
    assert_eq!(read(&shared), Some(String::from("x")));
    let access = shared.try_access().unwrap();
    assert_eq!(read(&shared), None);
    drop(access);
    assert_eq!(read(&shared), Some(String::from("x")));
}

#[test]
fn write_through_stores_through_a_granted_access() {
    let cell = rtic_sync::arbiter::Arbiter::new(0);
    let (res, held) = write_through(cell.try_access(), 5);
    assert_eq!(res, Ok(()));
    // The access comes back and lends what was written.
    assert_eq!(**held.as_ref().unwrap(), 5);
    assert!(cell.try_access().is_none());
    drop(held);
    assert_eq!(*cell.try_access().unwrap(), 5);
}

#[test]
fn write_through_hands_the_value_back_on_a_refusal() {
    let cell = rtic_sync::arbiter::Arbiter::new(String::from("old"));
    let access = cell.try_access().unwrap();
    let (res, held) = write_through(cell.try_access(), String::from("new"));
    assert_eq!(res, Err(String::from("new")));
    assert!(held.is_none());
    assert_eq!(*access, String::from("old"));
}

#[test]
fn read_through_clones_what_a_granted_access_lends() {
    let cell = rtic_sync::arbiter::Arbiter::new(String::from("x"));
    let granted = cell.try_access();
    assert_eq!(read_through(&granted), Some(String::from("x")));
    let refusal = cell.try_access();
    assert_eq!(read_through(&refusal), None);
}

#[test]
fn store_leaves_the_last_value_written() {
    let cell = rtic_sync::arbiter::Arbiter::new(0);
    let mut access = cell.try_access().unwrap();
    store(&mut access, 3);
    assert_eq!(*access, 3);
    store(&mut access, 4);
    assert_eq!(*access, 4);
    drop(access);
    assert_eq!(read(&portable_atomic_util::Arc::new(cell)), Some(4));
}

#[test]
fn signal_invokes_the_lent_handle_once() {
    let (bell, waker) = bell();
    let slot = Some(waker);
    signal(&slot);
    assert_eq!(rings(&bell), 1);
    assert!(slot.is_some());
    signal(&None);
    assert_eq!(rings(&bell), 1);
}

#[test]
fn settle_keeps_what_came_back() {
    assert_eq!(settle(Ok::<(), i32>(())), (None, Progress::Ready(())));
    assert_eq!(settle(Err::<(), i32>(5)), (Some(5), Progress::Pending));
}

#[test]
fn waiter_completes_after_the_writer_has_set() {
    block_on(async {
        let log = RefCell::new(Vec::new());
        let value = ValueContainer::new(0);
        let waiter = async {
            let value = value.clone();
            log.borrow_mut().push("a: wait");
            let mut wait = value.wait_for_change();
            let change = poll_fn(|cx| match wait.poll(cx) {
                Progress::Ready(value) => Poll::Ready(value),
                Progress::Pending => Poll::Pending,
            })
            .await;
            log.borrow_mut().push("a: changed");
            assert_eq!(change, 1);
        };
        let writer = async {
            let mut value = value.clone();
            yield_now().await;
            log.borrow_mut().push("b: set");
            let _ = value.set_value(1);
        };
        waiter.join(writer).await;
        assert_eq!(*log.borrow(), vec!["a: wait", "b: set", "a: changed"]);
    });
}

#[test]
fn two_waiters_and_one_deliverer() {
    block_on(async {
        let log = RefCell::new(Vec::new());
        let option = AsyncOption::pending();
        let first = async {
            let option = option.clone();
            log.borrow_mut().push("first: wait");
            let item = poll_fn(|cx| match option.poll(cx) {
                Progress::Ready(item) => Poll::Ready(item),
                Progress::Pending => Poll::Pending,
            })
            .await;
            log.borrow_mut().push("first: done");
            assert_eq!(item, 1);
        };
        let second = async {
            let mut wait = option.wait_for_value();
            log.borrow_mut().push("second: wait");
            let item = poll_fn(|cx| match wait.poll(cx) {
                Progress::Ready(item) => Poll::Ready(item),
                Progress::Pending => Poll::Pending,
            })
            .await;
            log.borrow_mut().push("second: done");
            assert_eq!(item, 1);
        };
        let deliverer = async {
            yield_now().await;
            log.borrow_mut().push("deliver");
            assert_eq!(option.set(1), Ok(()));
        };
        first.join(second).join(deliverer).await;
        assert_eq!(
            *log.borrow(),
            vec!["first: wait", "second: wait", "deliver", "first: done", "second: done"]
        );
    });
}
