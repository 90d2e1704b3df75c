use std::sync::atomic::{AtomicUsize, Ordering};
use std::sync::Arc;
use std::task::Wake;
use std::time::{Duration, Instant};

use wake_event::waker::Waker;
use wake_event::{State, WaitError, WaitGuard};

struct CountingHandle(AtomicUsize);

impl Wake for CountingHandle {
    fn wake(self: Arc<Self>) {
        self.0.fetch_add(1, Ordering::SeqCst);
    }
}

fn counting_waker() -> (Arc<CountingHandle>, std::task::Waker) {
    let handle = Arc::new(CountingHandle(AtomicUsize::new(0)));
    let waker = std::task::Waker::from(handle.clone());
    (handle, waker)
}

#[test]
fn wake_resolves_the_pair() {
    let (waker, sleeper) = Waker::new();
    assert_eq!(sleeper.get_state(), State::Waiting);
    assert!(waker.wake());
    assert_eq!(sleeper.get_state(), State::Notified);
    sleeper.wait();
    assert_eq!(sleeper.get_state(), State::Notified);
}

#[test]
fn wake_after_guard_drop_reports_failure() {
    let (waker, sleeper) = Waker::new();
    drop(sleeper);
    assert!(!waker.wake());
}

#[test]
fn redundant_wake_reports_failure() {
    let (waker, sleeper) = Waker::new();
    assert!(waker.wake());
    assert!(!waker.wake());
    assert_eq!(sleeper.get_state(), State::Notified);
}

#[test]
fn discarded_waker_cancels_and_still_wakes() {
    let (handle, task_waker) = counting_waker();
    let (waker, sleeper) = Waker::new_async(task_waker);
    assert_eq!(sleeper.get_state(), State::Waiting);
    drop(waker);
    assert_eq!(sleeper.get_state(), State::Dropped);
    assert_eq!(handle.0.load(Ordering::SeqCst), 1);
}

#[test]
fn discarded_waker_wakes_even_when_already_notified() {
    let (handle, task_waker) = counting_waker();
    let (waker, sleeper) = Waker::new_async(task_waker);
    assert!(waker.wake());
    assert_eq!(handle.0.load(Ordering::SeqCst), 1);
    drop(waker);
    assert_eq!(sleeper.get_state(), State::Notified);
    assert_eq!(handle.0.load(Ordering::SeqCst), 2);
}

#[test]
fn async_wake_invokes_the_handle() {
    let (handle, task_waker) = counting_waker();
    let (waker, sleeper) = Waker::new_async(task_waker);
    assert_eq!(handle.0.load(Ordering::SeqCst), 0);
    assert!(waker.wake());
    assert_eq!(handle.0.load(Ordering::SeqCst), 1);
    assert_eq!(sleeper.get_state(), State::Notified);
}

#[test]
fn wait_deadline_times_out_and_leaves_waiting() {
    let (waker, sleeper) = Waker::new();
    let begin = Instant::now();
    let result = sleeper.wait_deadline(begin + Duration::from_millis(50));
    assert_eq!(result, Err(WaitError::Timeout));
    assert!(begin.elapsed() >= Duration::from_millis(50));
    assert_eq!(sleeper.get_state(), State::Waiting);
    assert!(waker.wake());
    assert_eq!(sleeper.get_state(), State::Notified);
}

#[test]
fn wait_deadline_succeeds_on_resolved_cell() {
    let (waker, sleeper) = Waker::new();
    assert!(waker.wake());
    let result = sleeper.wait_deadline(Instant::now() + Duration::from_millis(50));
    assert_eq!(result, Ok(()));

    let (waker2, sleeper2) = Waker::new();
    drop(waker2);
    assert_eq!(sleeper2.get_state(), State::Dropped);
    let result2 = sleeper2.wait_deadline(Instant::now() + Duration::from_millis(50));
    assert_eq!(result2, Ok(()));
}

#[test]
fn timeout_verdict_decides_by_the_final_state() {
    assert_eq!(
        WaitGuard::timeout_verdict(State::Waiting),
        Err(WaitError::Timeout)
    );
    assert_eq!(WaitGuard::timeout_verdict(State::Notified), Ok(()));
    assert_eq!(WaitGuard::timeout_verdict(State::Dropped), Ok(()));
}

#[test]
fn state_bits_round_trip() {
    for state in [State::Waiting, State::Notified, State::Dropped] {
        assert_eq!(State::from_bits(state.as_bits()), state);
    }
    assert_eq!(State::Waiting.as_bits(), 0);
    assert_eq!(State::Notified.as_bits(), 1);
    assert_eq!(State::Dropped.as_bits(), 2);
}
