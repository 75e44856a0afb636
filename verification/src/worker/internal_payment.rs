//! Recording a payment that a processor took: checking its fields and naming its columns.

use vstd::prelude::*;

use crate::amount::Amount;
use crate::datetime::{parse_instant, rfc3339_instant, Timestamp};

verus! {

#[verifier::external_type_specification]
#[verifier::external_body]
pub struct ExUuidError(uuid::Error);

/// The 128-bit value of the UUID that `uuid::Uuid::parse_str` reads from a text, or
/// `None` where it refuses the text.
pub uninterp spec fn uuid_value(text: Seq<char>) -> Option<u128>;

/// Calls `uuid::Uuid::parse_str` and takes the parsed id as its 128-bit value
/// (`Uuid::as_u128`). The contract claims only that the outcome is the named result of
/// the text.
#[verifier::external_body]
pub(crate) fn parse_uuid(text: &str) -> (r: Result<u128, uuid::Error>)
    ensures
        r is Ok <==> uuid_value(text@) is Some,
        r matches Ok(v) ==> uuid_value(text@) == Some(v),
{
    match uuid::Uuid::parse_str(text) {
        Ok(id) => Ok(id.as_u128()),
        Err(e) => Err(e),
    }
}

/// A payment ready to be inserted into the `payments` table.
pub struct InternalPayment {
    pub amount: Amount,
    pub correlation_id: u128,
    pub payment_processor: String,
    pub requested_at: Timestamp,
}

/// Why a payment was not recorded.
#[derive(Clone, Copy, Debug, PartialEq, Eq, Structural)]
pub enum InternalPaymentError {
    /// The amount is no decimal number.
    InvalidAmount,
    /// The correlation id is no UUID.
    InvalidCorrelationId,
    /// The request time is no RFC 3339 instant.
    InvalidRequestedAt,
    /// The database refused the row.
    InsertFailed,
}

/// The message of each failure.
pub open spec fn internal_payment_error_message(e: InternalPaymentError) -> Seq<char> {
    match e {
        InternalPaymentError::InvalidAmount => "Invalid amount format"@,
        InternalPaymentError::InvalidCorrelationId => "Invalid correlation_id format"@,
        InternalPaymentError::InvalidRequestedAt => "Invalid requested_at format"@,
        InternalPaymentError::InsertFailed => "Failed to create internal payment"@,
    }
}

impl InternalPaymentError {
    /// The message of the failure.
    pub fn message(&self) -> (r: &'static str)
        ensures
            r@ == internal_payment_error_message(*self),
    {
        match self {
            InternalPaymentError::InvalidAmount => "Invalid amount format",
            InternalPaymentError::InvalidCorrelationId => "Invalid correlation_id format",
            InternalPaymentError::InvalidRequestedAt => "Invalid requested_at format",
            InternalPaymentError::InsertFailed => "Failed to create internal payment",
        }
    }
}

/// Checks the fields of a payment in the order amount, correlation id, request time, and
/// refuses it at the first one that cannot be read. `amount` is `None` where the amount
/// could not be read as a decimal.
pub fn prepare_internal_payment(
    amount: Option<Amount>,
    correlation_id: &str,
    payment_processor: String,
    requested_at: &str,
) -> (r: Result<InternalPayment, InternalPaymentError>)
    ensures
        amount is None ==> (r matches Err(e) && e == InternalPaymentError::InvalidAmount),
        amount is Some && uuid_value(correlation_id@) is None ==> (r matches Err(e) && e
            == InternalPaymentError::InvalidCorrelationId),
        amount is Some && uuid_value(correlation_id@) is Some && rfc3339_instant(requested_at@) is None
            ==> (r matches Err(e) && e == InternalPaymentError::InvalidRequestedAt),
        amount is Some && uuid_value(correlation_id@) is Some && rfc3339_instant(requested_at@) is Some
            ==> (r matches Ok(p) && p.amount == amount->0 && Some(p.correlation_id) == uuid_value(
            correlation_id@,
        ) && p.payment_processor@ == payment_processor@ && Some(p.requested_at) == rfc3339_instant(
            requested_at@,
        )),
{
    let amount = match amount {
        Some(a) => a,
        None => return Err(InternalPaymentError::InvalidAmount),
    };
    let correlation_id = match parse_uuid(correlation_id) {
        Ok(id) => id,
        Err(_) => return Err(InternalPaymentError::InvalidCorrelationId),
    };
    let requested_at = match parse_instant(requested_at) {
        Some(t) => t,
        None => return Err(InternalPaymentError::InvalidRequestedAt),
    };
    Ok(InternalPayment { amount, correlation_id, payment_processor, requested_at })
}

/// The table in which payments are recorded.
pub const PAYMENTS_TABLE: &'static str = "payments";

/// The columns of a recorded payment, in the order of its values.
pub fn payment_columns() -> (r: Vec<&'static str>)
    ensures
        r@.len() == 4,
        r@[0]@ == "amount"@,
        r@[1]@ == "correlation_id"@,
        r@[2]@ == "payment_processor"@,
        r@[3]@ == "requested_at"@,
{
    let mut columns: Vec<&'static str> = Vec::new();
    columns.push("amount");
    columns.push("correlation_id");
    columns.push("payment_processor");
    columns.push("requested_at");
    columns
}

} // verus!
