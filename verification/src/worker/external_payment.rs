//! Forwarding a payment to a payment processor: where it goes and what the answer means.

use vstd::prelude::*;

use crate::worker::config::Config;

verus! {

/// The payment processors that take payments.
#[derive(Clone, Copy, Debug, PartialEq, Eq, Structural)]
pub enum PaymentProcessor {
    Default,
    Fallback,
}

/// The payment processors, as the polling consumer names them.
#[derive(Clone, Copy, Debug, PartialEq, Eq, Structural)]
pub enum PaymentProcessors {
    Default,
    Fallback,
}

impl PaymentProcessors {
    /// The processor of the same name.
    pub fn processor(&self) -> (r: PaymentProcessor)
        ensures
            (*self == PaymentProcessors::Default) == (r == PaymentProcessor::Default),
    {
        match self {
            PaymentProcessors::Default => PaymentProcessor::Default,
            PaymentProcessors::Fallback => PaymentProcessor::Fallback,
        }
    }
}

/// The name under which a processor's payments are recorded.
pub open spec fn processor_label(processor: PaymentProcessor) -> Seq<char> {
    match processor {
        PaymentProcessor::Default => "default"@,
        PaymentProcessor::Fallback => "fallback"@,
    }
}

impl PaymentProcessor {
    /// The name under which the processor's payments are recorded.
    pub fn label(&self) -> (r: &'static str)
        ensures
            r@ == processor_label(*self),
    {
        match self {
            PaymentProcessor::Default => "default",
            PaymentProcessor::Fallback => "fallback",
        }
    }
}

/// The base address of a processor.
pub open spec fn processor_base_url(config: Config, processor: PaymentProcessor) -> Seq<char> {
    match processor {
        PaymentProcessor::Default => config.payment_processor_default_url@,
        PaymentProcessor::Fallback => config.payment_processor_fallback_url@,
    }
}

/// The address to which payments for a processor are posted: its base address followed
/// by `/payments`.
pub fn payments_url(config: &Config, processor: PaymentProcessor) -> (r: String)
    ensures
        r@ == processor_base_url(*config, processor) + "/payments"@,
{
    let mut url = match processor {
        PaymentProcessor::Default => config.payment_processor_default_url.clone(),
        PaymentProcessor::Fallback => config.payment_processor_fallback_url.clone(),
    };
    url.append("/payments");
    url
}

/// Why a payment was not taken by a processor.
#[derive(Clone, Copy, Debug, PartialEq, Eq, Structural)]
pub enum ExternalPaymentError {
    /// The processor answered with a status outside 200 to 299.
    Rejected,
    /// The request could not be sent, or no answer came.
    Unsent,
}

/// The message of each failure.
pub open spec fn external_payment_error_message(e: ExternalPaymentError) -> Seq<char> {
    match e {
        ExternalPaymentError::Rejected => "Failed to create external payment"@,
        ExternalPaymentError::Unsent => "Failed to send external payment request"@,
    }
}

impl ExternalPaymentError {
    /// The message of the failure.
    pub fn message(&self) -> (r: &'static str)
        ensures
            r@ == external_payment_error_message(*self),
    {
        match self {
            ExternalPaymentError::Rejected => "Failed to create external payment",
            ExternalPaymentError::Unsent => "Failed to send external payment request",
        }
    }
}

/// Whether an HTTP status reports success (200 to 299).
pub open spec fn is_success_status(status: u16) -> bool {
    200 <= status && status < 300
}

/// What the answer of a processor means: `None` where no answer came, else its status.
pub fn external_payment_outcome(status: Option<u16>) -> (r: Result<(), ExternalPaymentError>)
    ensures
        status is None ==> r == Err::<(), ExternalPaymentError>(ExternalPaymentError::Unsent),
        status matches Some(s) && is_success_status(s) ==> r == Ok::<(), ExternalPaymentError>(()),
        status matches Some(s) && !is_success_status(s) ==> r == Err::<(), ExternalPaymentError>(
            ExternalPaymentError::Rejected,
        ),
{
    match status {
        Some(code) => {
            if 200 <= code && code < 300 {
                Ok(())
            } else {
                Err(ExternalPaymentError::Rejected)
            }
        },
        None => Err(ExternalPaymentError::Unsent),
    }
}

} // verus!
