use rinha::amount::Amount;
use rinha::worker::config::Config;
use rinha::worker::consumer::{
    dequeue_mode, forward_target, on_dequeue, on_forwarded, DequeueEvent, DequeueMode, Settlement,
    WorkerAction, WorkerState, MAX_DEQUEUE_RETRIES,
};
use rinha::worker::database::{insert_statement, InsertError};
use rinha::worker::external_payment::{
    external_payment_outcome, payments_url, ExternalPaymentError, PaymentProcessor, PaymentProcessors,
};
use rinha::worker::internal_payment::{
    payment_columns, prepare_internal_payment, InternalPaymentError, PAYMENTS_TABLE,
};
use rinha::worker::payment_consumer::{on_poll, submit_target, PollAction, IDLE_PAUSE_MILLIS};

fn config() -> Config {
    Config {
        payment_processor_default_url: "http://pp-default:8080".to_string(),
        payment_processor_fallback_url: "http://pp-fallback:8080".to_string(),
        postgres_host: "db".to_string(),
        postgres_port: 5432,
        postgres_db: "rinha".to_string(),
        postgres_user: "postgres".to_string(),
        postgres_password: "secret".to_string(),
        redis_url: "redis://cache".to_string(),
    }
}

#[test]
fn insert_statement_numbers_its_parameters() {
    let columns = payment_columns();
    assert_eq!(columns, vec!["amount", "correlation_id", "payment_processor", "requested_at"]);
    assert_eq!(
        insert_statement(PAYMENTS_TABLE, &columns, 4).unwrap(),
        "INSERT INTO payments (amount, correlation_id, payment_processor, requested_at) VALUES ($1, $2, $3, $4)"
    );
    assert_eq!(insert_statement("t", &["a"], 1).unwrap(), "INSERT INTO t (a) VALUES ($1)");
    let many: Vec<&str> = vec!["c"; 12];
    let text = insert_statement("t", &many, 12).unwrap();
    assert!(text.ends_with("$9, $10, $11, $12)"));
}

#[test]
fn insert_statement_refusals() {
    assert_eq!(insert_statement("t", &[], 0), Err(InsertError::NoFields));
    assert_eq!(insert_statement("t", &[], 3), Err(InsertError::NoFields));
    assert_eq!(insert_statement("t", &["a", "b"], 1), Err(InsertError::CountMismatch));
    assert_eq!(InsertError::NoFields.message(), "No fields provided");
    assert_eq!(InsertError::CountMismatch.message(), "Field and value counts don't match");
}

#[test]
fn payments_url_per_processor() {
    assert_eq!(payments_url(&config(), PaymentProcessor::Default), "http://pp-default:8080/payments");
    assert_eq!(payments_url(&config(), PaymentProcessor::Fallback), "http://pp-fallback:8080/payments");
    assert_eq!(PaymentProcessors::Fallback.processor(), PaymentProcessor::Fallback);
    assert_eq!(PaymentProcessor::Default.label(), "default");
}

#[test]
fn external_outcome_by_status() {
    assert_eq!(external_payment_outcome(Some(200)), Ok(()));
    assert_eq!(external_payment_outcome(Some(299)), Ok(()));
    assert_eq!(external_payment_outcome(Some(199)), Err(ExternalPaymentError::Rejected));
    assert_eq!(external_payment_outcome(Some(300)), Err(ExternalPaymentError::Rejected));
    assert_eq!(external_payment_outcome(Some(500)), Err(ExternalPaymentError::Rejected));
    assert_eq!(external_payment_outcome(None), Err(ExternalPaymentError::Unsent));
    assert_eq!(ExternalPaymentError::Rejected.message(), "Failed to create external payment");
    assert_eq!(ExternalPaymentError::Unsent.message(), "Failed to send external payment request");
}

const ID: &str = "4a7901b8-7d26-4d9d-aa19-4dc1c7cf60b3";

#[test]
fn internal_payment_is_prepared() {
    let amount = Amount { mantissa: 1990, scale: 2 };
    let p = prepare_internal_payment(Some(amount), ID, "default".to_string(), "2025-07-15T12:34:56Z").unwrap();
    assert_eq!(p.amount, amount);
    assert_eq!(p.correlation_id, 98991174507089926953670857065778602163u128);
    assert_eq!(p.payment_processor, "default");
    assert_eq!(p.requested_at.seconds, 1752582896);
    assert_eq!(p.requested_at.nanos, 0);
}

#[test]
fn internal_payment_refusals_in_order() {
    let amount = Amount { mantissa: 1, scale: 0 };
    let e = prepare_internal_payment(None, "bad", String::new(), "bad").err().unwrap();
    assert_eq!(e, InternalPaymentError::InvalidAmount);
    assert_eq!(e.message(), "Invalid amount format");
    let e = prepare_internal_payment(Some(amount), "bad", String::new(), "bad").err().unwrap();
    assert_eq!(e, InternalPaymentError::InvalidCorrelationId);
    assert_eq!(e.message(), "Invalid correlation_id format");
    let e = prepare_internal_payment(Some(amount), ID, String::new(), "2025-07-15 12:34").err().unwrap();
    assert_eq!(e, InternalPaymentError::InvalidRequestedAt);
    assert_eq!(e.message(), "Invalid requested_at format");
    assert_eq!(InternalPaymentError::InsertFailed.message(), "Failed to create internal payment");
}

#[test]
fn consumer_polls_then_waits_on_queue() {
    let mut state = WorkerState::new();
    for k in 1..=MAX_DEQUEUE_RETRIES {
        assert_eq!(dequeue_mode(&state), DequeueMode::Immediate);
        let (next, action) = on_dequeue(state, DequeueEvent::Empty);
        assert_eq!(next.empty_count, k);
        assert!(matches!(action, WorkerAction::Pause(1)));
        state = next;
    }
    assert_eq!(dequeue_mode(&state), DequeueMode::Blocking);
    let (next, action) = on_dequeue(state, DequeueEvent::Empty);
    assert_eq!(next.empty_count, MAX_DEQUEUE_RETRIES + 1);
    assert!(matches!(action, WorkerAction::Poll));
    let (failed, action) = on_dequeue(next, DequeueEvent::Failed);
    assert_eq!(failed, next);
    assert!(matches!(action, WorkerAction::Pause(1000)));
    let (reset, action) = on_dequeue(failed, DequeueEvent::Message("m".to_string()));
    assert_eq!(reset.empty_count, 0);
    assert_eq!(dequeue_mode(&reset), DequeueMode::Immediate);
    match action {
        WorkerAction::Process(m) => assert_eq!(m, "m"),
        _ => panic!("message not processed"),
    }
}

#[test]
fn consumer_settles_by_outcome() {
    assert_eq!(forward_target(), PaymentProcessor::Default);
    assert_eq!(on_forwarded(PaymentProcessor::Default, Ok(())), Settlement::Record(PaymentProcessor::Default));
    assert_eq!(on_forwarded(PaymentProcessor::Default, Err(ExternalPaymentError::Rejected)), Settlement::Requeue);
    assert_eq!(on_forwarded(PaymentProcessor::Fallback, Err(ExternalPaymentError::Unsent)), Settlement::Requeue);
}

#[test]
fn polling_consumer_decisions() {
    assert_eq!(submit_target(), PaymentProcessors::Default);
    match on_poll(DequeueEvent::Message("p".to_string())) {
        PollAction::Submit(m) => assert_eq!(m, "p"),
        _ => panic!("message not submitted"),
    }
    match on_poll(DequeueEvent::Empty) {
        PollAction::Wait(notice, ms) => {
            assert_eq!(notice, "No payment messages found, waiting...");
            assert_eq!(ms, IDLE_PAUSE_MILLIS);
            assert_eq!(ms, 3000);
        }
        _ => panic!("empty queue not waited on"),
    }
    match on_poll(DequeueEvent::Failed) {
        PollAction::Wait(notice, ms) => {
            assert_eq!(notice, "Error while dequeuing payment message, retrying...");
            assert_eq!(ms, 3000);
        }
        _ => panic!("failed poll not waited on"),
    }
}
