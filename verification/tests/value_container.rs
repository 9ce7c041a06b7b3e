use std::future::poll_fn;
use std::rc::Rc;
use std::sync::Mutex;
use std::task::Poll;

use async_std::prelude::FutureExt;
use async_std::task::block_on;
use async_std::task::yield_now;
use coop_sync::Progress;
use coop_sync::ValueContainer;
use rtic_core::Mutex as _;

/// A lock that serialises access to one value shared by the tasks of a test.
pub struct MockMutex<T> {
    value: Rc<Mutex<T>>,
}

impl<T> Clone for MockMutex<T> {
    fn clone(&self) -> Self {
        Self { value: self.value.clone() }
    }
}

impl<T> MockMutex<T> {
    pub fn new(value: T) -> Self {
        Self { value: Rc::new(Mutex::new(value)) }
    }
}

impl<T> rtic_core::Mutex for MockMutex<T> {
    type T = T;

    fn lock<R>(&mut self, f: impl FnOnce(&mut Self::T) -> R) -> R {
        let mut value = self.value.lock().unwrap();
        f(&mut value)
    }
}

/// Awaits the next change that this handle sees.
async fn next_change<V: Clone + PartialEq>(value: &ValueContainer<V>) -> V {
    let mut change = value.wait_for_change();
    poll_fn(|cx| match change.poll(cx) {
        Progress::Ready(value) => Poll::Ready(value),
        Progress::Pending => Poll::Pending,
    })
    .await
}

/// Sets the value through this handle and awaits the write.
async fn set_and_wait<V: Clone>(value: &mut ValueContainer<V>, new_value: V) {
    let mut set = value.set_value(new_value);
    poll_fn(|cx| match set.poll(cx) {
        Progress::Ready(()) => Poll::Ready(()),
        Progress::Pending => Poll::Pending,
    })
    .await
}

#[test]
fn test_have_initial_value() {
    let value = ValueContainer::new(0);
    assert_eq!(value.get_value(), 0);
}

#[test]
fn test_set_value() {
    let mut value = ValueContainer::new(0);
    let _ = value.set_value(1);
    assert_eq!(value.get_value(), 1);
}

#[test]
fn test_work_with_mutex() {
    block_on(async {
        let mtx = MockMutex::new(ValueContainer::new(0));
        let ctrl = async {
            let mut mtx = mtx.clone();
            println!("ctrl: release");
            yield_now().await;
            println!("ctrl: set");
            mtx.lock(|value| {
                let _ = value.set_value(1);
            });
            println!("ctrl: release");
        };
        let run = async {
            let mut mtx = mtx.clone();
            println!("run: wait");
            let watcher = mtx.lock(|value| value.clone());
            let change = next_change(&watcher).await;
            println!("run: changed");
            assert_eq!(change, 1);
        };
        ctrl.join(run).await;
    });
}

#[test]
fn test_wait_miss_if_inner_is_taken() {
    block_on(async {
        let mtx = MockMutex::new(ValueContainer::new(0));
        let ctrl = async {
            let mut mtx = mtx.clone();
            println!("ctrl: take inner");
            let inner = mtx.lock(|value| value.inner.clone());
            let inner_ref = inner.value.try_access().unwrap();
            println!("ctrl: release");
            yield_now().await;
            println!("ctrl: set 1");
            mtx.lock(|value| {
                let _ = value.set_value(1);
            });
            println!("ctrl: release");
            yield_now().await;
            println!("ctrl: drop inner");
            drop(inner_ref);
            println!("ctrl: release");
            yield_now().await;
            println!("ctrl: set 2");
            mtx.lock(|value| {
                let _ = value.set_value(2);
            });
            println!("ctrl: release");
            yield_now().await;
        };
        let run = async {
            let mut mtx = mtx.clone();
            println!("run: wait");
            let watcher = mtx.lock(|value| value.clone());
            let change = next_change(&watcher).await;
            println!("run: changed {}", change);
            assert_eq!(change, 2);
        };

        ctrl.join(run).await;
    });
}

#[test]
fn test_set_should_wait_until_inner_is_available() {
    block_on(async {
        let mtx = MockMutex::new(ValueContainer::new(0));
        let ctrl = async {
            let mut mtx = mtx.clone();
            println!("ctrl: take inner");
            let inner = mtx.lock(|value| value.inner.clone());
            let inner_ref = inner.value.try_access().unwrap();
            println!("ctrl: release");
            yield_now().await;
            println!("ctrl: drop inner");
            drop(inner_ref);
            println!("ctrl: release");
            yield_now().await;
        };

        let run = async {
            let mut mtx = mtx.clone();
            println!("run: wait");
            let watcher = mtx.lock(|value| value.clone());
            let change = next_change(&watcher).await;
            println!("run: changed");
            assert_eq!(change, 1);
        };
        let set = async {
            let mut mtx = mtx.clone();
            println!("set: wait");
            let mut writer = mtx.lock(|value| value.clone());
            set_and_wait(&mut writer, 1).await;
            println!("set: done");
        };
        ctrl.join(run).join(set).await;
    });
}
