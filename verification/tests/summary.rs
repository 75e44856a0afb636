use rinha::amount::Amount;
use rinha::api::dto::PaymentMetricDTO;
use rinha::api::summary::{build_payment_summary, create_summary_query, summary_query, SummaryRow};
use rinha::datetime::Timestamp;

const SELECT: &str =
    "SELECT payment_processor, COUNT(1) AS count, SUM(amount) AS total_amount FROM payments";

fn ts(seconds: i64) -> Timestamp {
    Timestamp { seconds, nanos: 0 }
}

#[test]
fn summary_query_without_bounds() {
    let (query, params) = summary_query(None, None);
    assert_eq!(query, format!("{} GROUP BY payment_processor", SELECT));
    assert!(params.is_empty());
}

#[test]
fn summary_query_with_lower_bound() {
    let (query, params) = summary_query(Some(ts(10)), None);
    assert_eq!(query, format!("{} WHERE requested_at >= $1 GROUP BY payment_processor", SELECT));
    assert_eq!(params, vec![ts(10)]);
}

#[test]
fn summary_query_with_upper_bound() {
    let (query, params) = summary_query(None, Some(ts(20)));
    assert_eq!(query, format!("{} WHERE requested_at <= $1 GROUP BY payment_processor", SELECT));
    assert_eq!(params, vec![ts(20)]);
}

#[test]
fn summary_query_with_both_bounds() {
    let (query, params) = summary_query(Some(ts(10)), Some(ts(20)));
    assert_eq!(
        query,
        format!("{} WHERE requested_at >= $1 AND requested_at <= $2 GROUP BY payment_processor", SELECT)
    );
    assert_eq!(params, vec![ts(10), ts(20)]);
}

#[test]
fn create_summary_query_drops_unreadable_bounds() {
    let (query, params) = create_summary_query(
        &Some("not a date".to_string()),
        &Some("2025-07-15T12:34:56".to_string()),
    );
    assert_eq!(query, format!("{} WHERE requested_at <= $1 GROUP BY payment_processor", SELECT));
    assert_eq!(params, vec![ts(1752582896)]);

    let (query, params) = create_summary_query(&Some("2025-07-15T12:34:56Z".to_string()), &None);
    assert_eq!(query, format!("{} WHERE requested_at >= $1 GROUP BY payment_processor", SELECT));
    assert_eq!(params, vec![ts(1752582896)]);

    let (query, params) = create_summary_query(&None, &None);
    assert_eq!(query, format!("{} GROUP BY payment_processor", SELECT));
    assert!(params.is_empty());
}

fn row(processor: &str, count: i64, mantissa: i128, scale: u32) -> SummaryRow {
    SummaryRow {
        payment_processor: processor.to_string(),
        count,
        total_amount: Amount { mantissa, scale },
    }
}

#[test]
fn summary_of_no_rows_is_zero() {
    let summary = build_payment_summary(vec![]);
    let zero = PaymentMetricDTO { total_requests: 0, total_amount: Amount { mantissa: 0, scale: 0 } };
    assert_eq!(summary.default, zero);
    assert_eq!(summary.fallback, zero);
    assert_eq!(PaymentMetricDTO::empty(), zero);
}

#[test]
fn summary_splits_default_from_other_rows() {
    let summary = build_payment_summary(vec![row("default", 3, 4590, 2), row("fallback", 2, 1990, 1)]);
    assert_eq!(summary.default, PaymentMetricDTO { total_requests: 3, total_amount: Amount { mantissa: 4590, scale: 2 } });
    assert_eq!(summary.fallback, PaymentMetricDTO { total_requests: 2, total_amount: Amount { mantissa: 1990, scale: 1 } });
}

#[test]
fn summary_keeps_last_row_of_each_side() {
    let summary = build_payment_summary(vec![
        row("other", 1, 10, 0),
        row("default", 3, 30, 0),
        row("fallback", 2, 20, 0),
        row("default", 5, 50, 0),
    ]);
    assert_eq!(summary.default.total_requests, 5);
    assert_eq!(summary.default.total_amount, Amount { mantissa: 50, scale: 0 });
    assert_eq!(summary.fallback.total_requests, 2);
    assert_eq!(summary.fallback.total_amount, Amount { mantissa: 20, scale: 0 });
}

#[test]
fn summary_name_must_match_exactly() {
    let summary = build_payment_summary(vec![row("Default", 4, 1, 0)]);
    assert_eq!(summary.default.total_requests, 0);
    assert_eq!(summary.fallback.total_requests, 4);
}
