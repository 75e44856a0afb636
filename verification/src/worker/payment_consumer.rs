//! The decisions of the polling consumer, which takes the pending-payments queue one
//! message at a time and forwards each payment to the default processor.

use vstd::prelude::*;

use crate::worker::consumer::DequeueEvent;
use crate::worker::external_payment::PaymentProcessors;

verus! {

/// How long the worker waits after a poll that brought no message, in milliseconds.
pub const IDLE_PAUSE_MILLIS: u64 = 3000;

/// What the worker does after a poll.
pub enum PollAction {
    /// Read the message as a payment and forward it.
    Submit(String),
    /// Report the notice, wait this many milliseconds, and poll again.
    Wait(&'static str, u64),
}

/// The notice for an empty queue.
pub open spec fn empty_queue_notice() -> Seq<char> {
    "No payment messages found, waiting..."@
}

/// The notice for a failed poll.
pub open spec fn failed_poll_notice() -> Seq<char> {
    "Error while dequeuing payment message, retrying..."@
}

/// Decides what follows a poll: a message is submitted; an empty queue or a failed poll
/// is reported, and waited after for `IDLE_PAUSE_MILLIS`.
pub fn on_poll(event: DequeueEvent) -> (r: PollAction)
    ensures
        event matches DequeueEvent::Message(m) ==> (r matches PollAction::Submit(p) && p@ == m@),
        event is Empty ==> (r matches PollAction::Wait(notice, ms) && notice@ == empty_queue_notice()
            && ms == IDLE_PAUSE_MILLIS),
        event is Failed ==> (r matches PollAction::Wait(notice, ms) && notice@ == failed_poll_notice()
            && ms == IDLE_PAUSE_MILLIS),
{
    match event {
        DequeueEvent::Message(message) => PollAction::Submit(message),
        DequeueEvent::Empty => PollAction::Wait("No payment messages found, waiting...", IDLE_PAUSE_MILLIS),
        DequeueEvent::Failed => PollAction::Wait(
            "Error while dequeuing payment message, retrying...",
            IDLE_PAUSE_MILLIS,
        ),
    }
}

/// The processor to which that consumer submits every payment.
pub fn submit_target() -> (r: PaymentProcessors)
    ensures
        r == PaymentProcessors::Default,
{
    PaymentProcessors::Default
}

} // verus!
