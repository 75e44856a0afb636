//! The answers of the single-process service's routes.

use vstd::prelude::*;

use crate::api::route::{create_payment_status, CREATED, INTERNAL_SERVER_ERROR};

verus! {

/// The status of the payment route: created where the payment was queued, else an
/// internal error.
pub fn payment_status(queued: bool) -> (r: u16)
    ensures
        r == (if queued { CREATED } else { INTERNAL_SERVER_ERROR }),
{
    create_payment_status(queued)
}

/// The note with which the summary route answers when the summary was fetched.
pub open spec fn summary_fetched_note() -> Seq<char> {
    "Payment summary fetched successfully"@
}

/// The answer of the summary route: the note where the summary was fetched, else the
/// internal-error status.
pub fn payments_summary_answer(fetched: bool) -> (r: Result<&'static str, u16>)
    ensures
        fetched ==> (r matches Ok(note) && note@ == summary_fetched_note()),
        !fetched ==> r == Err::<&'static str, u16>(INTERNAL_SERVER_ERROR),
{
    if fetched {
        Ok("Payment summary fetched successfully")
    } else {
        Err(INTERNAL_SERVER_ERROR)
    }
}

} // verus!
