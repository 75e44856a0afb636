//! The statuses with which the HTTP routes answer.

use vstd::prelude::*;

verus! {

/// The status of a payment that was taken in.
pub const CREATED: u16 = 201;

/// The status of a request that the service could not carry out.
pub const INTERNAL_SERVER_ERROR: u16 = 500;

/// The status of the payment route: created where the payment was queued, else an
/// internal error.
pub fn create_payment_status(queued: bool) -> (r: u16)
    ensures
        r == (if queued { CREATED } else { INTERNAL_SERVER_ERROR }),
{
    if queued {
        CREATED
    } else {
        INTERNAL_SERVER_ERROR
    }
}

} // verus!
