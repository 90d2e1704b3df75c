//! An in-process event primitive. Any number of listeners register to be
//! woken; producers wake one or all currently registered listeners, with
//! at-most-once delivery per listener and safe cancellation.
//!
//! An [`Event`] owns a registry of producer-side handles ([`waker::Waker`])
//! kept in a lock-free queue, plus an approximate live-listener counter used
//! only to skip work when there is nothing to deliver. What a notify call
//! does to the registered cells is stated abstractly over a sequence of
//! [`State`]s — [`notify_one_spec`] and [`notify_all_spec`] — and the
//! delivery laws are proved of those functions in this file.

use vstd::prelude::*;

pub mod linked_list;
pub mod waker;

use waker::{apply_step, Step, Waker};

pub use waker::{State, WaitError, WaitGuard};

verus! {

/// The position of the oldest still-live (`Waiting`) entry, if any.
pub open spec fn first_waiting(cells: Seq<State>) -> Option<int>
    decreases cells.len(),
{
    if cells.len() == 0 {
        None
    } else if cells[0] is Waiting {
        Some(0int)
    } else {
        match first_waiting(cells.drop_first()) {
            Some(i) => Some(i + 1),
            None => None,
        }
    }
}

/// What notify-one does to the registered cells: the oldest live entry, if
/// one exists, is delivered to and becomes `Notified`; resolved entries are
/// only discarded, never delivered to.
pub open spec fn notify_one_spec(cells: Seq<State>) -> Seq<State> {
    match first_waiting(cells) {
        Some(i) => cells.update(i, State::Notified),
        None => cells,
    }
}

/// What notify-all does to the registered cells: one `Notify` step on every
/// entry, so every live entry becomes `Notified` and no entry is delivered
/// to twice.
pub open spec fn notify_all_spec(cells: Seq<State>) -> Seq<State> {
    Seq::new(cells.len(), |i: int| apply_step(cells[i], Step::Notify))
}

/// One call against an event's registry, seen abstractly: a registration, a
/// cancellation of the entry at a given position, or a notify-one.
pub enum RegistryCall {
    Listen,
    Cancel(int),
    NotifyOne,
}

/// The registry contents after a whole sequence of calls, starting from no
/// listeners: each `Listen` appends a fresh `Waiting` entry, each `Cancel`
/// takes the `Cancel` step on its entry, and each `NotifyOne` acts as
/// [`notify_one_spec`].
pub open spec fn run_calls(calls: Seq<RegistryCall>) -> Seq<State>
    decreases calls.len(),
{
    if calls.len() == 0 {
        Seq::empty()
    } else {
        let before = run_calls(calls.drop_last());
        match calls.last() {
            RegistryCall::Listen => before.push(State::Waiting),
            RegistryCall::Cancel(i) => if 0 <= i < before.len() {
                before.update(i, apply_step(before[i], Step::Cancel))
            } else {
                before
            },
            RegistryCall::NotifyOne => notify_one_spec(before),
        }
    }
}

/// For any sequence of listen, cancel and notify-one calls, each notify-one
/// wakes at most one listener — one registered strictly before the call,
/// namely the oldest entry still live — which then observes `Notified`;
/// every other entry keeps the state it had.
pub proof fn lemma_notify_one_over_any_call_sequence(calls: Seq<RegistryCall>)
    requires
        calls.len() > 0,
        calls.last() is NotifyOne,
    ensures
        ({
            let before = run_calls(calls.drop_last());
            let after = run_calls(calls);
            &&& after.len() == before.len()
            &&& match first_waiting(before) {
                Some(i) => {
                    &&& 0 <= i < before.len()
                    &&& before[i] is Waiting
                    &&& after[i] is Notified
                    &&& forall|k: int| 0 <= k < before.len() && k != i ==> after[k] == before[k]
                },
                None => after == before,
            }
        }),
{
    lemma_notify_one_wakes_at_most_one(run_calls(calls.drop_last()));
}

/// `first_waiting` finds exactly the oldest live entry: the entry it names
/// is `Waiting` and everything older is already resolved, and when it finds
/// none, no entry is `Waiting` at all.
pub proof fn lemma_first_waiting_is_oldest_live(cells: Seq<State>)
    ensures
        match first_waiting(cells) {
            Some(i) => {
                &&& 0 <= i < cells.len()
                &&& cells[i] is Waiting
                &&& forall|k: int| 0 <= k < i ==> !(cells[k] is Waiting)
            },
            None => forall|k: int| 0 <= k < cells.len() ==> !(cells[k] is Waiting),
        },
    decreases cells.len(),
{
    if cells.len() > 0 && !(cells[0] is Waiting) {
        let rest = cells.drop_first();
        lemma_first_waiting_is_oldest_live(rest);
        assert(forall|k: int| 0 <= k < rest.len() ==> rest[k] == cells[k + 1]);
        match first_waiting(rest) {
            Some(i) => {
                assert(rest[i] == cells[i + 1]);
                assert forall|k: int| 0 <= k < i + 1 implies !(cells[k] is Waiting) by {
                    if k > 0 {
                        assert(rest[k - 1] == cells[k]);
                    }
                }
            },
            None => {
                assert forall|k: int| 0 <= k < cells.len() implies !(cells[k] is Waiting) by {
                    if k > 0 {
                        assert(rest[k - 1] == cells[k]);
                    }
                }
            },
        }
    }
}

/// Each notify-one wakes at most one listener — one registered before the
/// call, namely the oldest still-live entry, which then observes `Notified`
/// — and changes no other entry.
pub proof fn lemma_notify_one_wakes_at_most_one(cells: Seq<State>)
    ensures
        notify_one_spec(cells).len() == cells.len(),
        match first_waiting(cells) {
            Some(i) => {
                &&& 0 <= i < cells.len()
                &&& cells[i] is Waiting
                &&& notify_one_spec(cells)[i] is Notified
                &&& forall|k: int| 0 <= k < i ==> !(cells[k] is Waiting)
                &&& forall|k: int|
                    0 <= k < cells.len() && k != i ==> notify_one_spec(cells)[k] == cells[k]
            },
            None => notify_one_spec(cells) == cells,
        },
{
    lemma_first_waiting_is_oldest_live(cells);
}

/// Notify-one on an empty or all-resolved registry is a no-op: no entry
/// changes state.
pub proof fn lemma_notify_one_empty_noop(cells: Seq<State>)
    requires
        forall|k: int| 0 <= k < cells.len() ==> !(cells[k] is Waiting),
    ensures
        notify_one_spec(cells) == cells,
{
    lemma_first_waiting_is_oldest_live(cells);
}

/// Notify-all wakes every currently live listener exactly once — each
/// `Waiting` entry takes a single step to `Notified`, already-resolved
/// entries are untouched — and leaves no live entry behind, so a second
/// notify-all right after changes nothing.
pub proof fn lemma_notify_all_drains(cells: Seq<State>)
    ensures
        notify_all_spec(cells).len() == cells.len(),
        forall|k: int|
            0 <= k < cells.len() ==> (cells[k] is Waiting ==> notify_all_spec(cells)[k]
                is Notified),
        forall|k: int|
            0 <= k < cells.len() ==> (!(cells[k] is Waiting) ==> notify_all_spec(cells)[k]
                == cells[k]),
        forall|k: int| 0 <= k < cells.len() ==> !(notify_all_spec(cells)[k] is Waiting),
        notify_all_spec(notify_all_spec(cells)) == notify_all_spec(cells),
{
    assert(notify_all_spec(notify_all_spec(cells)) =~= notify_all_spec(cells));
}

/// A cancelled entry is skipped, not delivered to: notify-one leaves a
/// `Dropped` entry `Dropped`, never counts it as the delivery, and delivery
/// falls to the oldest live entry instead.
pub proof fn lemma_notify_one_skips_dropped(cells: Seq<State>, j: int)
    requires
        0 <= j < cells.len(),
        cells[j] is Dropped,
    ensures
        notify_one_spec(cells)[j] is Dropped,
        first_waiting(cells) matches Some(i) ==> i != j,
{
    lemma_notify_one_wakes_at_most_one(cells);
}

#[verifier::external_type_specification]
#[verifier::external_body]
#[verifier::reject_recursive_types(T)]
pub struct ExConcurrentQueue<T>(concurrent_queue::ConcurrentQueue<T>);

#[verifier::external_type_specification]
#[verifier::external_body]
pub struct ExAtomicUsize(portable_atomic::AtomicUsize);

/// Relies on concurrent_queue::ConcurrentQueue::unbounded: a fresh empty
/// unbounded queue; pushes to it always have room.
#[verifier::external_body]
fn queue_unbounded() -> concurrent_queue::ConcurrentQueue<Waker> {
    concurrent_queue::ConcurrentQueue::unbounded()
}

/// Relies on concurrent_queue::ConcurrentQueue::push: appends at the tail.
/// On an unbounded queue a push fails only when the queue has been closed;
/// nothing here ever closes one, so a failure means the registry is corrupt
/// and aborts, as the error design demands.
#[verifier::external_body]
fn queue_push(queue: &concurrent_queue::ConcurrentQueue<Waker>, waker: Waker) {
    match queue.push(waker) {
        Ok(()) => (),
        Err(_) => Option::<()>::None.expect("push to an open unbounded queue failed"),
    }
}

/// Relies on concurrent_queue::ConcurrentQueue::pop: takes the entry at the
/// head, oldest first; `None` when the queue is empty at that moment.
#[verifier::external_body]
fn queue_pop(queue: &concurrent_queue::ConcurrentQueue<Waker>) -> Option<Waker> {
    match queue.pop() {
        Ok(waker) => Some(waker),
        Err(_) => None,
    }
}

/// Relies on concurrent_queue::ConcurrentQueue::len: how many entries the
/// queue holds at that moment; a snapshot that concurrent calls may outdate.
#[verifier::external_body]
fn queue_len(queue: &concurrent_queue::ConcurrentQueue<Waker>) -> usize {
    queue.len()
}

/// Relies on portable_atomic::AtomicUsize::new: a counter starting at zero.
#[verifier::external_body]
fn counter_new() -> portable_atomic::AtomicUsize {
    portable_atomic::AtomicUsize::new(0)
}

/// Relies on portable_atomic::AtomicUsize::fetch_add (Release): counts one
/// more listener, so that a notifier that can see the entry also sees a
/// non-zero count.
#[verifier::external_body]
fn counter_increment(counter: &portable_atomic::AtomicUsize) {
    counter.fetch_add(1, core::sync::atomic::Ordering::Release);
}

/// Relies on portable_atomic::AtomicUsize::fetch_sub (Release): counts one
/// listener less. Called once per popped entry, and every increment precedes
/// the push of its entry, so the count never underflows.
#[verifier::external_body]
fn counter_decrement(counter: &portable_atomic::AtomicUsize) {
    counter.fetch_sub(1, core::sync::atomic::Ordering::Release);
}

/// Relies on portable_atomic::AtomicUsize::load (Relaxed): the count at that
/// moment, an estimate that is exact once no unresolved entry remains.
#[verifier::external_body]
fn counter_load(counter: &portable_atomic::AtomicUsize) -> usize {
    counter.load(core::sync::atomic::Ordering::Relaxed)
}

/// Relies on portable_atomic::fence (SeqCst): orders the count read after
/// every registration that happened before the notify call.
#[verifier::external_body]
fn barrier() {
    portable_atomic::fence(core::sync::atomic::Ordering::SeqCst);
}

/// The public facade: a registry of live producer-side handles plus the
/// approximate live-listener count.
pub struct Event {
    chain: concurrent_queue::ConcurrentQueue<Waker>,
    num_listeners: portable_atomic::AtomicUsize,
}

impl Default for Event {
    /// An event with no listeners.
    fn default() -> Self {
        Event { chain: queue_unbounded(), num_listeners: counter_new() }
    }
}

impl Event {
    /// Registers the calling context as a listener: builds a waker/guard pair
    /// over a fresh `Waiting` cell, appends the waker at the registry's tail,
    /// and hands back the guard. Delivery is only guaranteed against notify
    /// calls that start after this returns: check, register, then re-check.
    pub fn listen(&self) -> WaitGuard {
        let (waker, guard) = Waker::new();
        counter_increment(&self.num_listeners);
        queue_push(&self.chain, waker);
        guard
    }

    /// `listen`, but bound to a caller-supplied asynchronous wake handle
    /// instead of a parker of its own. Poll the guard with `get_state`; a
    /// guard that must be polled again with a different handle needs a fresh
    /// registration.
    pub fn listen_async(&self, waker: core::task::Waker) -> WaitGuard {
        let (waker, guard) = Waker::new_async(waker);
        counter_increment(&self.num_listeners);
        queue_push(&self.chain, waker);
        guard
    }

    /// Wakes the oldest still-live listener, if there is one: the `Some`
    /// branch of [`notify_one_spec`]. After a barrier, a zero count returns
    /// at once. Otherwise entries are popped from the front; an entry whose
    /// delivery fails — already notified or cancelled — is discarded and the
    /// scan goes on, up to the length the registry had when the scan began,
    /// so entries racing in during the scan are left for the next call.
    pub fn notify_one(&self) {
        barrier();
        if counter_load(&self.num_listeners) == 0 {
            return;
        }
        let snapshot = queue_len(&self.chain);
        let mut scanned: usize = 0;
        while scanned < snapshot
            decreases snapshot - scanned,
        {
            match queue_pop(&self.chain) {
                Some(node) => {
                    counter_decrement(&self.num_listeners);
                    if node.wake() {
                        return;
                    }
                },
                None => {
                    return;
                },
            }
            scanned = scanned + 1;
        }
    }

    /// Wakes every currently live listener: [`notify_all_spec`]. After the
    /// same zero-count fast path, it drains up to the captured count and
    /// attempts delivery on every entry; waking an already-resolved entry
    /// just reports failure and is harmless.
    pub fn notify_all(&self) {
        barrier();
        let len = counter_load(&self.num_listeners);
        let mut drained: usize = 0;
        while drained < len
            decreases len - drained,
        {
            match queue_pop(&self.chain) {
                Some(node) => {
                    counter_decrement(&self.num_listeners);
                    node.wake();
                },
                None => {
                    return;
                },
            }
            drained = drained + 1;
        }
    }
}

} // verus!
