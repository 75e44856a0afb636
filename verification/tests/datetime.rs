use rinha::datetime::{parse_filter_date, parse_instant, Timestamp};

#[test]
fn filter_date_reads_rfc3339() {
    assert_eq!(
        parse_filter_date("2025-07-15T12:34:56Z"),
        Some(Timestamp { seconds: 1752582896, nanos: 0 })
    );
    assert_eq!(
        parse_filter_date("2025-07-15T12:34:56.250+03:00"),
        Some(Timestamp { seconds: 1752572096, nanos: 250_000_000 })
    );
}

#[test]
fn filter_date_falls_back_to_plain_layout() {
    assert_eq!(
        parse_filter_date("2025-07-15T12:34:56"),
        Some(Timestamp { seconds: 1752582896, nanos: 0 })
    );
}

#[test]
fn filter_date_refuses_other_texts() {
    assert_eq!(parse_filter_date("yesterday"), None);
    assert_eq!(parse_filter_date("2025-07-15"), None);
    assert_eq!(parse_filter_date(""), None);
}

#[test]
fn instant_reads_only_rfc3339() {
    assert_eq!(
        parse_instant("2025-07-15T12:34:56Z"),
        Some(Timestamp { seconds: 1752582896, nanos: 0 })
    );
    assert_eq!(parse_instant("2025-07-15T12:34:56"), None);
}
