//! The payment worker: configuration, the consumers of the pending queue, and the
//! payments it forwards to the processors and records.

pub mod config;
pub mod consumer;
pub mod database;
pub mod external_payment;
pub mod internal_payment;
pub mod payment_consumer;
