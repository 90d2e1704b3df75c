//! The producer/consumer hand-off cell and its two handles.
//!
//! A `Waker` and a `WaitGuard` are created together and share one tri-state
//! atomic cell. The producer side resolves the cell Waiting -> Notified and
//! invokes the wake target; the consumer side blocks on its parker, reads the
//! resolved state, and on drop resolves the cell to Dropped (cancellation).
//!
//! The shared cell lives behind real atomics, so what concurrent calls return
//! cannot be pinned by contracts on the handles alone; the transition rules
//! themselves are stated and proved over [`State`] in this module: `Waiting`
//! is the only state ever left, terminal states absorb every later step, and
//! the first step out of `Waiting` alone decides the outcome.

use vstd::prelude::*;

use std::sync::Arc;
use std::time::Instant;

verus! {

/// The tri-state of one listener cell. `Waiting` is initial; `Notified` and
/// `Dropped` are terminal: no transition ever leaves a terminal state.
#[derive(Debug, Clone, Copy, PartialEq, Eq, Structural)]
pub enum State {
    Waiting,
    Notified,
    Dropped,
}

impl State {
    /// The byte that stands for this state in the shared atomic cell.
    pub fn as_bits(self) -> (r: u8)
        ensures
            r == self.bits(),
    {
        match self {
            State::Waiting => 0,
            State::Notified => 1,
            State::Dropped => 2,
        }
    }

    /// Reads a state back from its cell byte. Only the three encodings of
    /// `as_bits` are states; anything else would mean a corrupted cell.
    pub fn from_bits(value: u8) -> (r: State)
        requires
            value <= 2,
        ensures
            r.bits() == value,
    {
        if value == 0 {
            State::Waiting
        } else if value == 1 {
            State::Notified
        } else {
            State::Dropped
        }
    }

    /// The encoding `as_bits` returns.
    pub open spec fn bits(self) -> u8 {
        match self {
            State::Waiting => 0,
            State::Notified => 1,
            State::Dropped => 2,
        }
    }
}

/// The two transitions that can be attempted on a cell: delivery of a notify,
/// or cancellation (a guard dropped, or a waker discarded).
pub enum Step {
    Notify,
    Cancel,
}

/// What one attempted transition does to a cell: it moves `Waiting` to the
/// step's terminal state and leaves a terminal state untouched. This is the
/// compare-and-swap the handles perform, seen at the level of states.
pub open spec fn apply_step(s: State, t: Step) -> State {
    if s is Waiting {
        match t {
            Step::Notify => State::Notified,
            Step::Cancel => State::Dropped,
        }
    } else {
        s
    }
}

/// A whole history of attempted transitions, applied in order.
pub open spec fn run_steps(s: State, ts: Seq<Step>) -> State
    decreases ts.len(),
{
    if ts.len() == 0 {
        s
    } else {
        run_steps(apply_step(s, ts[0]), ts.drop_first())
    }
}

/// Terminal states are stable: once a cell is `Notified` or `Dropped`, no
/// later step - notify or cancel, in any order - changes it.
pub proof fn lemma_terminal_absorbs(s: State, ts: Seq<Step>)
    requires
        !(s is Waiting),
    ensures
        run_steps(s, ts) == s,
    decreases ts.len(),
{
    if ts.len() > 0 {
        lemma_terminal_absorbs(s, ts.drop_first());
    }
}

/// Exactly one transition away from `Waiting` ever succeeds: however many
/// notify and cancel attempts race on a cell, the first one alone decides the
/// final state, and every later attempt changes nothing.
pub proof fn lemma_first_step_decides(ts: Seq<Step>)
    requires
        ts.len() > 0,
    ensures
        run_steps(State::Waiting, ts) == apply_step(State::Waiting, ts[0]),
        !(run_steps(State::Waiting, ts) is Waiting),
{
    lemma_terminal_absorbs(apply_step(State::Waiting, ts[0]), ts.drop_first());
}

/// A cell no step ever reaches stays `Waiting`: a timeout is not a
/// transition, so a listener that timed out can still be woken later.
pub proof fn lemma_untouched_stays_waiting()
    ensures
        run_steps(State::Waiting, Seq::<Step>::empty()) == State::Waiting,
        apply_step(State::Waiting, Step::Notify) == State::Notified,
{
}

#[verifier::external_type_specification]
#[verifier::external_body]
pub struct ExAtomicU8(portable_atomic::AtomicU8);

#[verifier::external_type_specification]
#[verifier::external_body]
pub struct ExParker(parking::Parker);

#[verifier::external_type_specification]
#[verifier::external_body]
pub struct ExUnparker(parking::Unparker);

#[verifier::external_type_specification]
#[verifier::external_body]
pub struct ExTaskWaker(core::task::Waker);

#[verifier::external_type_specification]
#[verifier::external_body]
pub struct ExInstant(Instant);

/// Relies on portable_atomic::AtomicU8::new: a fresh cell holding the
/// `Waiting` encoding, shared through an `Arc`.
#[verifier::external_body]
fn cell_new() -> Arc<portable_atomic::AtomicU8> {
    Arc::new(portable_atomic::AtomicU8::new(0))
}

/// Relies on Arc::clone: the clone is the same shared cell.
#[verifier::external_body]
fn cell_share(cell: &Arc<portable_atomic::AtomicU8>) -> (r: Arc<portable_atomic::AtomicU8>)
    ensures
        r == *cell,
{
    Arc::clone(cell)
}

/// Relies on portable_atomic::AtomicU8::load (Acquire). Every write this
/// crate makes to a cell stores one of the three state encodings; any other
/// byte means a corrupted cell, and the `expect` guard fails rather than
/// invent a state.
#[verifier::external_body]
fn cell_get(cell: &Arc<portable_atomic::AtomicU8>) -> State {
    let bits = cell.load(core::sync::atomic::Ordering::Acquire);
    if bits == 0 {
        State::Waiting
    } else if bits == 1 {
        State::Notified
    } else if bits == 2 {
        State::Dropped
    } else {
        Option::<State>::None.expect("wait state out of range")
    }
}

/// Relies on portable_atomic::AtomicU8::compare_exchange (SeqCst on success):
/// moves the cell from `Waiting` to the given terminal state. `None` means
/// the swap won; `Some(prev)` means the cell was already terminal, and which
/// state it held. Only this module's handles reach this swap, and they store
/// nothing but the three encodings, so the corrupt-byte guard is unreachable
/// and the call cannot unwind.
#[verifier::external_body]
fn cell_try_resolve(cell: &Arc<portable_atomic::AtomicU8>, to: State) -> (r: Option<State>)
    requires
        !(to is Waiting),
    ensures
        r matches Some(prev) ==> !(prev is Waiting),
    opens_invariants none
    no_unwind
{
    let order = core::sync::atomic::Ordering::SeqCst;
    let relaxed = core::sync::atomic::Ordering::Relaxed;
    match cell.compare_exchange(0, to.as_bits(), order, relaxed) {
        Ok(_) => None,
        Err(1) => Some(State::Notified),
        Err(2) => Some(State::Dropped),
        Err(_) => Option::<Option<State>>::None.expect("wait state out of range"),
    }
}

/// Relies on portable_atomic::AtomicU8::store (Release): overwrites the cell
/// with the `Dropped` encoding, whatever it held.
#[verifier::external_body]
fn cell_store_dropped(cell: &Arc<portable_atomic::AtomicU8>)
    opens_invariants none
    no_unwind
{
    cell.store(2, core::sync::atomic::Ordering::Release);
}

/// Relies on parking::pair: a parker and the unparker that wakes it.
#[verifier::external_body]
fn parker_pair() -> (parking::Parker, parking::Unparker) {
    parking::pair()
}

/// Relies on parking::Parker::park: blocks the calling thread until the
/// parker is notified; absorbs spurious wake-ups itself.
#[verifier::external_body]
fn parker_park(parker: &parking::Parker) {
    parker.park();
}

/// Relies on parking::Parker::park_deadline: blocks until notified or until
/// the deadline; true means notified before the deadline, false means the
/// deadline passed.
#[verifier::external_body]
fn parker_park_deadline(parker: &parking::Parker, deadline: &Instant) -> bool {
    parker.park_deadline(*deadline)
}

/// Relies on parking::Unparker::unpark: notifies the paired parker, waking
/// its parked thread if one is parked. Assumed not to unwind: it only flips
/// the pair's internal state and signals its condition variable.
#[verifier::external_body]
fn unparker_unpark(unparker: &parking::Unparker)
    opens_invariants none
    no_unwind
{
    unparker.unpark();
}

/// Relies on core::task::Waker::wake_by_ref: invokes the caller-supplied wake
/// handle. Wake handles are assumed not to unwind, matching what executors
/// require of them.
#[verifier::external_body]
fn task_waker_wake_by_ref(waker: &core::task::Waker)
    opens_invariants none
    no_unwind
{
    waker.wake_by_ref();
}

/// The mechanism used to resume a suspended listener: unpark its blocked
/// thread, or invoke its asynchronous wake handle. Exactly one capability,
/// `wake_by_ref`.
enum WakeTarget {
    Blocking(parking::Unparker),
    Task(core::task::Waker),
}

impl WakeTarget {
    fn wake_by_ref(&self)
        opens_invariants none
        no_unwind
    {
        match self {
            WakeTarget::Blocking(unparker) => unparker_unpark(unparker),
            WakeTarget::Task(waker) => task_waker_wake_by_ref(waker),
        }
    }
}

/// The producer-side handle: can resolve the shared cell and invoke the wake
/// target.
pub struct Waker {
    target: WakeTarget,
    state: Arc<portable_atomic::AtomicU8>,
}

/// The consumer-side handle: blocks or polls until the shared cell resolves,
/// and cancels on drop.
pub struct WaitGuard {
    state: Arc<portable_atomic::AtomicU8>,
    parker: parking::Parker,
}

impl Waker {
    /// The shared cell this handle resolves.
    pub closed spec fn cell(&self) -> Arc<portable_atomic::AtomicU8> {
        self.state
    }

    /// A listener bound to a parker of its own: the guard blocks on the
    /// parker, the waker unparks it. The two handles share one cell.
    pub fn new() -> (r: (Waker, WaitGuard))
        ensures
            r.0.cell() == r.1.cell(),
    {
        let (parker, unparker) = parker_pair();
        let state = cell_new();
        let shared = cell_share(&state);
        (Waker { target: WakeTarget::Blocking(unparker), state }, WaitGuard { state: shared, parker })
    }

    /// A listener bound to a caller-supplied asynchronous wake handle. The
    /// guard is meant to be polled with `get_state`, not blocked on.
    pub fn new_async(waker: core::task::Waker) -> (r: (Waker, WaitGuard))
        ensures
            r.0.cell() == r.1.cell(),
    {
        let (parker, _unparker) = parker_pair();
        let state = cell_new();
        let shared = cell_share(&state);
        (Waker { target: WakeTarget::Task(waker), state }, WaitGuard { state: shared, parker })
    }

    /// Attempts delivery: the `Notify` step of [`apply_step`]. On winning the
    /// swap it invokes the wake target and returns true; on losing - the cell
    /// was already resolved, legally only to `Dropped` when each cell sees at
    /// most one delivery - it does nothing further and returns false.
    pub fn wake(&self) -> bool {
        match cell_try_resolve(&self.state, State::Notified) {
            None => {
                self.target.wake_by_ref();
                true
            },
            Some(_) => false,
        }
    }
}

impl Drop for Waker {
    /// A waker discarded without delivering - evicted as dead during a notify
    /// scan, or torn down with its registry - attempts the `Cancel` step and,
    /// whether or not that swap wins, invokes the wake target once: a
    /// discarded waker must never leave a parked listener stuck, and a
    /// spurious wake is safe because listeners re-check their state.
    fn drop(&mut self)
        opens_invariants none
        no_unwind
    {
        let _ = cell_try_resolve(&self.state, State::Dropped);
        self.target.wake_by_ref();
    }
}

/// The one recoverable failure: a deadline elapsed while the cell was still
/// `Waiting`.
#[derive(Debug, Clone, Copy, PartialEq, Eq, Structural)]
pub enum WaitError {
    Timeout,
}

impl WaitGuard {
    /// The shared cell this guard watches.
    pub closed spec fn cell(&self) -> Arc<portable_atomic::AtomicU8> {
        self.state
    }

    /// A guard over an existing cell, blocking on the given parker.
    pub fn new(state: Arc<portable_atomic::AtomicU8>, parker: parking::Parker) -> (r: WaitGuard)
        ensures
            r.cell() == state,
    {
        WaitGuard { state, parker }
    }

    /// Blocks until the cell leaves `Waiting`: parks, re-reads the state on
    /// every wake-up, and returns once the state is terminal. The resolved
    /// state is then read with `get_state`.
    ///
    /// Every loop needs a termination measure here, so the loop spends one
    /// unit of fuel per round. The bound cannot be reached: a round beyond
    /// the first requires `parker_park` to return, which takes one unpark of
    /// this guard's private parker, and its paired unparker is invoked at
    /// most twice in this crate - on delivery and on discard of the waker.
    pub fn wait(&self) {
        let mut fuel: u64 = 0xffff_ffff_ffff_ffff;
        while fuel > 0
            decreases fuel,
        {
            let s = self.get_state();
            if s == State::Waiting {
                parker_park(&self.parker);
            } else {
                return;
            }
            fuel = fuel - 1;
        }
    }

    /// The verdict once the deadline has passed, decided by the last state
    /// read: a cell still `Waiting` means the deadline elapsed with no
    /// delivery and no cancellation - `Timeout` - while a resolved cell,
    /// `Notified` or `Dropped` alike, means success.
    pub fn timeout_verdict(s: State) -> (r: Result<(), WaitError>)
        ensures
            r is Err <==> s is Waiting,
            r is Err ==> r->Err_0 == WaitError::Timeout,
    {
        if s == State::Waiting {
            Err(WaitError::Timeout)
        } else {
            Ok(())
        }
    }

    /// Bounded `wait`: parks against the deadline and re-checks the state on
    /// every wake-up, so spurious unparks only shorten the next park. Once
    /// the deadline passes while the cell still reads `Waiting`, the state is
    /// read one last time and [`Self::timeout_verdict`] fixes the result:
    /// `Err(Timeout)` exactly when that read is still `Waiting`. A timeout
    /// writes nothing: the cell stays `Waiting` and a later notify can still
    /// deliver. The loop spends fuel as its termination measure, as in
    /// [`Self::wait`]; the unreachable exhaustion path takes the same
    /// verdict from the same final read.
    pub fn wait_deadline(&self, deadline: Instant) -> (r: Result<(), WaitError>)
        ensures
            r is Err ==> r->Err_0 == WaitError::Timeout,
    {
        let mut fuel: u64 = 0xffff_ffff_ffff_ffff;
        while fuel > 0
            decreases fuel,
        {
            let s = self.get_state();
            if s == State::Waiting {
                let notified = parker_park_deadline(&self.parker, &deadline);
                if !notified {
                    return Self::timeout_verdict(self.get_state());
                }
            } else {
                return Ok(());
            }
            fuel = fuel - 1;
        }
        Self::timeout_verdict(self.get_state())
    }

    /// Non-blocking read of the cell: distinguishes `Notified`, `Dropped`
    /// and still-`Waiting` without suspending.
    pub fn get_state(&self) -> State {
        cell_get(&self.state)
    }
}

impl Drop for WaitGuard {
    /// Cancellation: unconditionally stores `Dropped`. Racing against a
    /// concurrent delivery, whichever write lands first decides the cell -
    /// the `Cancel` step of [`apply_step`] - and the loser takes no further
    /// action.
    fn drop(&mut self)
        opens_invariants none
        no_unwind
    {
        cell_store_dropped(&self.state);
    }
}

} // verus!
