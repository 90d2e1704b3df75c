use std::sync::atomic::{AtomicUsize, Ordering};
use std::sync::Arc;
use std::task::Wake;
use std::time::{Duration, Instant};

use wake_event::{Event, State, WaitError};

struct CountingHandle(AtomicUsize);

impl Wake for CountingHandle {
    fn wake(self: Arc<Self>) {
        self.0.fetch_add(1, Ordering::SeqCst);
    }
}

fn counting_waker() -> (Arc<CountingHandle>, std::task::Waker) {
    let handle = Arc::new(CountingHandle(AtomicUsize::new(0)));
    let waker = std::task::Waker::from(handle.clone());
    (handle, waker)
}

#[test]
fn notify_one_wakes_the_oldest_listener() {
    let event = Event::default();
    let first = event.listen();
    let second = event.listen();
    assert_eq!(first.get_state(), State::Waiting);
    assert_eq!(second.get_state(), State::Waiting);

    event.notify_one();
    assert_eq!(first.get_state(), State::Notified);
    assert_eq!(second.get_state(), State::Waiting);

    event.notify_one();
    assert_eq!(second.get_state(), State::Notified);
}

#[test]
fn notify_one_on_empty_event_is_a_noop() {
    let event = Event::default();
    event.notify_one();
    let late = event.listen();
    assert_eq!(late.get_state(), State::Waiting);
}

#[test]
fn notify_one_on_all_resolved_event_is_a_noop() {
    let event = Event::default();
    let guard = event.listen();
    drop(guard);
    event.notify_one();
    let late = event.listen();
    assert_eq!(late.get_state(), State::Waiting);
}

#[test]
fn notify_one_skips_a_dropped_listener() {
    let event = Event::default();
    let guard_a = event.listen();
    let guard_b = event.listen();
    drop(guard_a);
    event.notify_one();
    assert_eq!(guard_b.get_state(), State::Notified);
}

#[test]
fn notify_all_wakes_every_listener_and_drains() {
    let event = Event::default();
    let guards: Vec<_> = (0..5).map(|_| event.listen()).collect();
    event.notify_all();
    for guard in &guards {
        assert_eq!(guard.get_state(), State::Notified);
    }
    event.notify_all();
    for guard in &guards {
        assert_eq!(guard.get_state(), State::Notified);
    }
}

#[test]
fn notify_all_reaches_a_thousand_listeners() {
    let event = Event::default();
    let guards: Vec<_> = (0..1000).map(|_| event.listen()).collect();
    event.notify_all();
    for guard in &guards {
        assert_eq!(guard.get_state(), State::Notified);
    }
}

#[test]
fn wait_returns_once_notified() {
    let event = Event::default();
    let guard = event.listen();
    assert_eq!(guard.get_state(), State::Waiting);
    event.notify_one();
    guard.wait();
    assert_eq!(guard.get_state(), State::Notified);
}

#[test]
fn timed_out_listener_can_still_be_woken() {
    let event = Event::default();
    let guard = event.listen();
    let result = guard.wait_deadline(Instant::now() + Duration::from_millis(50));
    assert_eq!(result, Err(WaitError::Timeout));
    assert_eq!(guard.get_state(), State::Waiting);
    event.notify_one();
    assert_eq!(guard.get_state(), State::Notified);
    guard.wait();
}

#[test]
fn async_listener_is_woken_through_its_handle() {
    let event = Event::default();
    let (handle, task_waker) = counting_waker();
    let guard = event.listen_async(task_waker);
    assert_eq!(guard.get_state(), State::Waiting);
    assert_eq!(handle.0.load(Ordering::SeqCst), 0);
    event.notify_one();
    assert_eq!(guard.get_state(), State::Notified);
    // Two invocations: the delivery itself, and one more when the scan
    // discards the spent waker - a discarded waker always wakes once.
    assert_eq!(handle.0.load(Ordering::SeqCst), 2);
}

#[test]
fn torn_down_event_cancels_and_wakes_its_listeners() {
    let event = Event::default();
    let (handle, task_waker) = counting_waker();
    let guard = event.listen_async(task_waker);
    drop(event);
    assert_eq!(guard.get_state(), State::Dropped);
    assert_eq!(handle.0.load(Ordering::SeqCst), 1);
}

#[test]
fn notify_one_delivers_at_most_once_per_call() {
    let event = Event::default();
    let guards: Vec<_> = (0..4).map(|_| event.listen()).collect();
    event.notify_one();
    let notified = guards
        .iter()
        .filter(|g| g.get_state() == State::Notified)
        .count();
    assert_eq!(notified, 1);
}
