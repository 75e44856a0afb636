//! The decisions of a worker that drains the pending-payments queue: how to poll, what to
//! do with what the poll brought, and what follows a processor's answer.

use vstd::prelude::*;

use crate::worker::external_payment::{ExternalPaymentError, PaymentProcessor};

verus! {

/// How many empty polls in a row a worker makes without waiting on the queue.
pub const MAX_DEQUEUE_RETRIES: usize = 3;

/// How many workers drain the queue side by side.
pub const NUMBER_OF_WORKERS: usize = 5;

/// How long a worker pauses after an empty poll, in milliseconds.
pub const EMPTY_POLL_PAUSE_MILLIS: u64 = 1;

/// How long a worker pauses after the queue failed, in milliseconds.
pub const FAILED_POLL_PAUSE_MILLIS: u64 = 1000;

/// What a worker remembers between polls: how many polls in a row found the queue empty.
#[derive(Clone, Copy, Debug, PartialEq, Eq, Structural)]
pub struct WorkerState {
    pub empty_count: usize,
}

/// How the next poll takes from the queue.
#[derive(Clone, Copy, Debug, PartialEq, Eq, Structural)]
pub enum DequeueMode {
    /// Take the first message, or nothing, at once.
    Immediate,
    /// Wait a short while on the queue for a message.
    Blocking,
}

/// What a poll of the queue brought.
pub enum DequeueEvent {
    Message(String),
    Empty,
    Failed,
}

/// What a worker does after a poll.
pub enum WorkerAction {
    /// Read the message as a payment and forward it.
    Process(String),
    /// Wait this many milliseconds, then poll again.
    Pause(u64),
    /// Poll again at once.
    Poll,
}

/// What follows a processor's answer.
#[derive(Clone, Copy, Debug, PartialEq, Eq, Structural)]
pub enum Settlement {
    /// Record the payment as taken by the processor.
    Record(PaymentProcessor),
    /// Put the message back at the end of the queue.
    Requeue,
}

impl WorkerState {
    /// A worker that has just started, or has just received a message.
    pub fn new() -> (r: WorkerState)
        ensures
            r.empty_count == 0,
    {
        WorkerState { empty_count: 0 }
    }
}

/// How a worker in this state polls.
pub open spec fn dequeue_mode_of(state: WorkerState) -> DequeueMode {
    if state.empty_count < MAX_DEQUEUE_RETRIES {
        DequeueMode::Immediate
    } else {
        DequeueMode::Blocking
    }
}

/// How the next poll takes from the queue: at once until `MAX_DEQUEUE_RETRIES` polls in
/// a row have found it empty, then waiting on it.
pub fn dequeue_mode(state: &WorkerState) -> (r: DequeueMode)
    ensures
        r == dequeue_mode_of(*state),
{
    if state.empty_count < MAX_DEQUEUE_RETRIES {
        DequeueMode::Immediate
    } else {
        DequeueMode::Blocking
    }
}

/// The state after an empty poll.
pub open spec fn after_empty(state: WorkerState) -> WorkerState {
    WorkerState { empty_count: (state.empty_count + 1) as usize }
}

/// Decides what follows a poll. A message resets the count of empty polls and is
/// processed; an empty poll is counted, and paused after only while the count is at most
/// `MAX_DEQUEUE_RETRIES`; a failed poll is paused after for a second.
pub fn on_dequeue(state: WorkerState, event: DequeueEvent) -> (r: (WorkerState, WorkerAction))
    requires
        event is Empty ==> state.empty_count < usize::MAX,
    ensures
        event matches DequeueEvent::Message(m) ==> (r.0.empty_count == 0 && (r.1 matches WorkerAction::Process(p) && p@ == m@)),
        event is Empty ==> r.0 == after_empty(state),
        event is Empty && r.0.empty_count <= MAX_DEQUEUE_RETRIES ==> (r.1 matches WorkerAction::Pause(ms) && ms == EMPTY_POLL_PAUSE_MILLIS),
        event is Empty && r.0.empty_count > MAX_DEQUEUE_RETRIES ==> r.1 is Poll,
        event is Failed ==> r.0 == state && (r.1 matches WorkerAction::Pause(ms) && ms == FAILED_POLL_PAUSE_MILLIS),
{
    match event {
        DequeueEvent::Message(message) => (WorkerState::new(), WorkerAction::Process(message)),
        DequeueEvent::Empty => {
            let next = WorkerState { empty_count: state.empty_count + 1 };
            if next.empty_count <= MAX_DEQUEUE_RETRIES {
                (next, WorkerAction::Pause(EMPTY_POLL_PAUSE_MILLIS))
            } else {
                (next, WorkerAction::Poll)
            }
        },
        DequeueEvent::Failed => (state, WorkerAction::Pause(FAILED_POLL_PAUSE_MILLIS)),
    }
}

/// The processor to which a worker forwards every payment.
pub fn forward_target() -> (r: PaymentProcessor)
    ensures
        r == PaymentProcessor::Default,
{
    PaymentProcessor::Default
}

/// Decides what follows a processor's answer: a taken payment is recorded as the
/// processor's, a payment not taken goes back to the queue as it came.
pub fn on_forwarded(processor: PaymentProcessor, outcome: Result<(), ExternalPaymentError>) -> (r:
    Settlement)
    ensures
        outcome is Ok ==> r == Settlement::Record(processor),
        outcome is Err ==> r == Settlement::Requeue,
{
    match outcome {
        Ok(()) => Settlement::Record(processor),
        Err(_) => Settlement::Requeue,
    }
}

/// The state after `k` empty polls in a row, from a worker that has just started.
pub open spec fn after_empty_polls(k: nat) -> WorkerState
    decreases k,
{
    if k == 0 {
        WorkerState { empty_count: 0 }
    } else {
        after_empty(after_empty_polls((k - 1) as nat))
    }
}

/// A worker counts its empty polls exactly, and waits on the queue from the
/// `MAX_DEQUEUE_RETRIES`-th empty poll in a row on, never before.
pub proof fn lemma_blocking_after_retries(k: nat)
    requires
        k <= usize::MAX,
    ensures
        after_empty_polls(k).empty_count == k,
        dequeue_mode_of(after_empty_polls(k)) == DequeueMode::Blocking <==> k >= MAX_DEQUEUE_RETRIES,
    decreases k,
{
    if k > 0 {
        lemma_blocking_after_retries((k - 1) as nat);
    }
}

} // verus!
