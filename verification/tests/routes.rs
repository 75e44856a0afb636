use rinha::api::route::create_payment_status;
use rinha::server::handlers::{payment_status, payments_summary_answer};

#[test]
fn payment_route_statuses() {
    assert_eq!(create_payment_status(true), 201);
    assert_eq!(create_payment_status(false), 500);
    assert_eq!(payment_status(true), 201);
    assert_eq!(payment_status(false), 500);
}

#[test]
fn summary_route_answers() {
    assert_eq!(payments_summary_answer(true), Ok("Payment summary fetched successfully"));
    assert_eq!(payments_summary_answer(false), Err(500));
}
