//! What the summary route answers.

use vstd::prelude::*;

use crate::amount::Amount;

verus! {

/// How many payments one processor took, and their sum.
#[derive(Clone, Copy, Debug, PartialEq, Eq, Structural)]
pub struct PaymentMetricDTO {
    pub total_requests: u64,
    pub total_amount: Amount,
}

/// The metrics of the default processor and of the fallback processor.
#[derive(Clone, Copy, Debug, PartialEq, Eq, Structural)]
pub struct PaymentSummaryDTO {
    pub default: PaymentMetricDTO,
    pub fallback: PaymentMetricDTO,
}

/// A metric of no payments.
pub open spec fn empty_metric() -> PaymentMetricDTO {
    PaymentMetricDTO { total_requests: 0, total_amount: Amount { mantissa: 0, scale: 0 } }
}

impl PaymentMetricDTO {
    /// A metric of no payments, with the default decimal amount.
    pub fn empty() -> (r: PaymentMetricDTO)
        ensures
            r == empty_metric(),
    {
        PaymentMetricDTO { total_requests: 0, total_amount: crate::amount::default_decimal_amount() }
    }
}

} // verus!
