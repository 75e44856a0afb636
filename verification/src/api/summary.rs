//! The payments summary: the SQL query for a date range and the summary built from its rows.

use vstd::prelude::*;

use crate::amount::Amount;
use crate::api::dto::{empty_metric, PaymentMetricDTO, PaymentSummaryDTO};
use crate::datetime::{
    filter_date_instant, formatted_instant, parse_filter_date, rfc3339_instant, Timestamp,
    FILTER_DATE_FORMAT,
};
use crate::text::{decimal_spec, decimal_text, text_equals};

verus! {

/// The start of every summary query.
pub open spec fn summary_select() -> Seq<char> {
    "SELECT payment_processor, COUNT(1) AS count, SUM(amount) AS total_amount FROM payments"@
}

/// The `WHERE` clause for the bounds that are given: each bound refers to its own
/// numbered parameter, the lower bound first.
pub open spec fn summary_filter(has_from: bool, has_to: bool) -> Seq<char> {
    if !has_from && !has_to {
        Seq::empty()
    } else {
        " WHERE"@ + (if has_from {
            " requested_at >= $"@ + decimal_spec(1)
        } else {
            Seq::empty()
        }) + (if has_to {
            (if has_from {
                " AND"@
            } else {
                Seq::empty()
            }) + " requested_at <= $"@ + decimal_spec(if has_from {
                2
            } else {
                1
            })
        } else {
            Seq::empty()
        })
    }
}

/// The text of the summary query for the bounds that are given.
pub open spec fn summary_query_text(has_from: bool, has_to: bool) -> Seq<char> {
    summary_select() + summary_filter(has_from, has_to) + " GROUP BY payment_processor"@
}

/// The parameters of the summary query: the bounds that are given, the lower one first.
pub open spec fn summary_params(from: Option<Timestamp>, to: Option<Timestamp>) -> Seq<Timestamp> {
    (match from {
        Some(t) => seq![t],
        None => Seq::empty(),
    }) + (match to {
        Some(t) => seq![t],
        None => Seq::empty(),
    })
}

/// Builds the summary query for the bounds that were read, with its parameters.
pub fn summary_query(from: Option<Timestamp>, to: Option<Timestamp>) -> (r: (String, Vec<Timestamp>))
    ensures
        r.0@ == summary_query_text(from is Some, to is Some),
        r.1@ == summary_params(from, to),
{
    let mut query = String::from_str(
        "SELECT payment_processor, COUNT(1) AS count, SUM(amount) AS total_amount FROM payments",
    );
    let mut params: Vec<Timestamp> = Vec::new();
    let mut param_index: u64 = 1;
    if from.is_some() || to.is_some() {
        query.append(" WHERE");
        if let Some(date) = from {
            query.append(" requested_at >= $");
            let index_text = decimal_text(param_index);
            query.append(index_text.as_str());
            params.push(date);
            param_index = param_index + 1;
        }
        if let Some(date) = to {
            if param_index > 1 {
                query.append(" AND");
            }
            query.append(" requested_at <= $");
            let index_text = decimal_text(param_index);
            query.append(index_text.as_str());
            params.push(date);
        }
    }
    query.append(" GROUP BY payment_processor");
    proof {
        assert(query@ =~= summary_query_text(from is Some, to is Some));
        assert(params@ =~= summary_params(from, to));
    }
    (query, params)
}

/// The instant that an optional date filter denotes.
pub open spec fn optional_filter_date(text: Option<String>) -> Option<Timestamp> {
    match text {
        Some(t) => filter_date_instant(t@),
        None => None,
    }
}

/// Builds the summary query for the date filters of a request. A filter that cannot be
/// read as a date is left out, as if it had not been given.
pub fn create_summary_query(from: &Option<String>, to: &Option<String>) -> (r: (String, Vec<Timestamp>))
    ensures
        r.0@ == summary_query_text(
            optional_filter_date(*from) is Some,
            optional_filter_date(*to) is Some,
        ),
        r.1@ == summary_params(optional_filter_date(*from), optional_filter_date(*to)),
        r.1@.len() == (if *from is Some && (rfc3339_instant(from->0@) is Some || formatted_instant(
            from->0@,
            FILTER_DATE_FORMAT@,
        ) is Some) {
            1int
        } else {
            0int
        }) + (if *to is Some && (rfc3339_instant(to->0@) is Some || formatted_instant(
            to->0@,
            FILTER_DATE_FORMAT@,
        ) is Some) {
            1int
        } else {
            0int
        }),
        *from is Some && rfc3339_instant(from->0@) is Some ==> r.1@.len() >= 1 && r.1@[0]
            == rfc3339_instant(from->0@)->0,
        *from is Some && rfc3339_instant(from->0@) is None && formatted_instant(
            from->0@,
            FILTER_DATE_FORMAT@,
        ) is Some ==> r.1@.len() >= 1 && r.1@[0] == formatted_instant(
            from->0@,
            FILTER_DATE_FORMAT@,
        )->0,
        *to is Some && rfc3339_instant(to->0@) is Some ==> r.1@.len() >= 1 && r.1@.last()
            == rfc3339_instant(to->0@)->0,
        *to is Some && rfc3339_instant(to->0@) is None && formatted_instant(
            to->0@,
            FILTER_DATE_FORMAT@,
        ) is Some ==> r.1@.len() >= 1 && r.1@.last() == formatted_instant(
            to->0@,
            FILTER_DATE_FORMAT@,
        )->0,
{
    proof {
        lemma_summary_bounds_read_rfc3339_first(*from, *to);
    }
    let from_parsed = match from {
        Some(text) => parse_filter_date(text.as_str()),
        None => None,
    };
    let to_parsed = match to {
        Some(text) => parse_filter_date(text.as_str()),
        None => None,
    };
    summary_query(from_parsed, to_parsed)
}

/// One row of the summary query: a processor's name, how many payments it took and
/// their sum.
pub struct SummaryRow {
    pub payment_processor: String,
    pub count: i64,
    pub total_amount: Amount,
}

/// Whether a row is the default processor's.
pub open spec fn is_default_row(row: SummaryRow) -> bool {
    row.payment_processor@ == "default"@
}

/// The metric that a row reports.
pub open spec fn row_metric(row: SummaryRow) -> PaymentMetricDTO {
    PaymentMetricDTO { total_requests: row.count as u64, total_amount: row.total_amount }
}

/// The metric of one side (the default processor, or every other) after the rows:
/// the last row of that side, or no payments where the side has no row.
pub open spec fn side_metric(rows: Seq<SummaryRow>, default_side: bool) -> PaymentMetricDTO
    decreases rows.len(),
{
    if rows.len() == 0 {
        empty_metric()
    } else if is_default_row(rows.last()) == default_side {
        row_metric(rows.last())
    } else {
        side_metric(rows.drop_last(), default_side)
    }
}

/// The summary that the rows give.
pub open spec fn summary_of(rows: Seq<SummaryRow>) -> PaymentSummaryDTO {
    PaymentSummaryDTO { default: side_metric(rows, true), fallback: side_metric(rows, false) }
}

/// Whether every row counts no fewer than zero payments.
pub open spec fn counts_are_natural(rows: Seq<SummaryRow>) -> bool {
    forall|i: int| 0 <= i < rows.len() ==> #[trigger] rows[i].count >= 0
}

/// Builds the summary from the rows of the summary query. A row named `default` gives
/// the default processor's metric, any other row the fallback's; a later row of a side
/// replaces an earlier one.
#[verifier::rlimit(30)]
pub fn build_payment_summary(rows: Vec<SummaryRow>) -> (r: PaymentSummaryDTO)
    requires
        counts_are_natural(rows@),
    ensures
        r == summary_of(rows@),
        forall|j: int|
            0 <= j < rows@.len() && rows@[j].payment_processor@ == "default"@ && (forall|k: int|
                j < k < rows@.len() ==> rows@[k].payment_processor@ != "default"@)
                ==> r.default.total_requests == rows@[j].count && r.default.total_amount
                == rows@[j].total_amount,
        (forall|k: int| 0 <= k < rows@.len() ==> rows@[k].payment_processor@ != "default"@)
            ==> r.default.total_requests == 0 && r.default.total_amount == (Amount {
            mantissa: 0,
            scale: 0,
        }),
        forall|j: int|
            0 <= j < rows@.len() && rows@[j].payment_processor@ != "default"@ && (forall|k: int|
                j < k < rows@.len() ==> rows@[k].payment_processor@ == "default"@)
                ==> r.fallback.total_requests == rows@[j].count && r.fallback.total_amount
                == rows@[j].total_amount,
        (forall|k: int| 0 <= k < rows@.len() ==> rows@[k].payment_processor@ == "default"@)
            ==> r.fallback.total_requests == 0 && r.fallback.total_amount == (Amount {
            mantissa: 0,
            scale: 0,
        }),
{
    let mut default_metric = PaymentMetricDTO::empty();
    let mut fallback_metric = PaymentMetricDTO::empty();
    let mut i: usize = 0;
    while i < rows.len()
        invariant
            i <= rows.len(),
            counts_are_natural(rows@),
            default_metric == side_metric(rows@.take(i as int), true),
            fallback_metric == side_metric(rows@.take(i as int), false),
        decreases rows.len() - i,
    {
        let row = &rows[i];
        let requests: i64 = row.count;
        assert(rows@[i as int].count >= 0);
        let metric = PaymentMetricDTO { total_requests: requests as u64, total_amount: row.total_amount };
        if text_equals(row.payment_processor.as_str(), "default") {
            default_metric = metric;
        } else {
            fallback_metric = metric;
        }
        proof {
            let prefix = rows@.take(i + 1);
            assert(prefix.drop_last() =~= rows@.take(i as int));
            assert(prefix.last() == rows@[i as int]);
        }
        i = i + 1;
    }
    assert(rows@.take(rows.len() as int) =~= rows@);
    proof {
        lemma_summary_reports_last_rows(rows@);
    }
    PaymentSummaryDTO { default: default_metric, fallback: fallback_metric }
}


/// Whatever rows come, each side of the summary reports the last row of that side: the
/// default processor's metric has the request count and amount of the last row named
/// `default`, the fallback's those of the last row with any other name, and a side with no
/// row reports no requests and a zero amount.
pub proof fn lemma_summary_reports_last_rows(rows: Seq<SummaryRow>)
    requires
        counts_are_natural(rows),
    ensures
        forall|j: int|
            0 <= j < rows.len() && rows[j].payment_processor@ == "default"@ && (forall|k: int|
                j < k < rows.len() ==> rows[k].payment_processor@ != "default"@) ==> summary_of(
                rows,
            ).default.total_requests == rows[j].count && summary_of(rows).default.total_amount
                == rows[j].total_amount,
        (forall|k: int| 0 <= k < rows.len() ==> rows[k].payment_processor@ != "default"@)
            ==> summary_of(rows).default.total_requests == 0 && summary_of(rows).default.total_amount
            == (Amount { mantissa: 0, scale: 0 }),
        forall|j: int|
            0 <= j < rows.len() && rows[j].payment_processor@ != "default"@ && (forall|k: int|
                j < k < rows.len() ==> rows[k].payment_processor@ == "default"@) ==> summary_of(
                rows,
            ).fallback.total_requests == rows[j].count && summary_of(rows).fallback.total_amount
                == rows[j].total_amount,
        (forall|k: int| 0 <= k < rows.len() ==> rows[k].payment_processor@ == "default"@)
            ==> summary_of(rows).fallback.total_requests == 0 && summary_of(
            rows,
        ).fallback.total_amount == (Amount { mantissa: 0, scale: 0 }),
{
    lemma_side_reports_last_row(rows, true);
    lemma_side_reports_last_row(rows, false);
}

proof fn lemma_side_reports_last_row(rows: Seq<SummaryRow>, default_side: bool)
    requires
        counts_are_natural(rows),
    ensures
        forall|j: int|
            0 <= j < rows.len() && (rows[j].payment_processor@ == "default"@) == default_side
                && (forall|k: int|
                j < k < rows.len() ==> (rows[k].payment_processor@ == "default"@) != default_side)
                ==> side_metric(rows, default_side).total_requests == rows[j].count && side_metric(
                rows,
                default_side,
            ).total_amount == rows[j].total_amount,
        (forall|k: int|
            0 <= k < rows.len() ==> (rows[k].payment_processor@ == "default"@) != default_side)
            ==> side_metric(rows, default_side).total_requests == 0 && side_metric(
            rows,
            default_side,
        ).total_amount == (Amount { mantissa: 0, scale: 0 }),
    decreases rows.len(),
{
    if rows.len() > 0 {
        let n = rows.len() - 1;
        let prefix = rows.drop_last();
        assert(counts_are_natural(prefix)) by {
            assert forall|i: int| 0 <= i < prefix.len() implies #[trigger] prefix[i].count >= 0 by {
                assert(prefix[i] == rows[i]);
            }
        }
        lemma_side_reports_last_row(prefix, default_side);
        assert(rows[n].count >= 0);
        if (rows[n].payment_processor@ == "default"@) == default_side {
            assert forall|j: int|
                0 <= j < rows.len() && (rows[j].payment_processor@ == "default"@) == default_side
                    && (forall|k: int|
                    j < k < rows.len() ==> (rows[k].payment_processor@ == "default"@)
                        != default_side) implies side_metric(rows, default_side).total_requests
                == rows[j].count && side_metric(rows, default_side).total_amount
                == rows[j].total_amount by {
                if j < n {
                    assert((rows[n].payment_processor@ == "default"@) != default_side);
                }
            }
        } else {
            assert forall|j: int|
                0 <= j < rows.len() && (rows[j].payment_processor@ == "default"@) == default_side
                    && (forall|k: int|
                    j < k < rows.len() ==> (rows[k].payment_processor@ == "default"@)
                        != default_side) implies side_metric(rows, default_side).total_requests
                == rows[j].count && side_metric(rows, default_side).total_amount
                == rows[j].total_amount by {
                assert(j < n);
                assert(prefix[j] == rows[j]);
                assert forall|k: int| j < k < prefix.len() implies (prefix[k].payment_processor@
                    == "default"@) != default_side by {
                    assert(prefix[k] == rows[k]);
                }
            }
            if forall|k: int|
                0 <= k < rows.len() ==> (rows[k].payment_processor@ == "default"@) != default_side {
                assert forall|k: int| 0 <= k < prefix.len() implies (prefix[k].payment_processor@
                    == "default"@) != default_side by {
                    assert(prefix[k] == rows[k]);
                }
            }
        }
    }
}

/// The bounds of a summary query are the instants that the filters denote: a filter with
/// an RFC 3339 reading gives that instant in UTC, its offset applied; only a filter with no
/// RFC 3339 reading is read in the offset-less `FILTER_DATE_FORMAT` layout; a filter with
/// neither reading gives no bound. The lower bound comes first, the upper bound last.
pub proof fn lemma_summary_bounds_read_rfc3339_first(from: Option<String>, to: Option<String>)
    ensures
        ({
            let params = summary_params(optional_filter_date(from), optional_filter_date(to));
            &&& params.len() == (if from is Some && (rfc3339_instant(from->0@) is Some
                || formatted_instant(from->0@, FILTER_DATE_FORMAT@) is Some) {
                1int
            } else {
                0int
            }) + (if to is Some && (rfc3339_instant(to->0@) is Some || formatted_instant(
                to->0@,
                FILTER_DATE_FORMAT@,
            ) is Some) {
                1int
            } else {
                0int
            })
            &&& from is Some && rfc3339_instant(from->0@) is Some ==> params.len() >= 1
                && params[0] == rfc3339_instant(from->0@)->0
            &&& from is Some && rfc3339_instant(from->0@) is None && formatted_instant(
                from->0@,
                FILTER_DATE_FORMAT@,
            ) is Some ==> params.len() >= 1 && params[0] == formatted_instant(
                from->0@,
                FILTER_DATE_FORMAT@,
            )->0
            &&& to is Some && rfc3339_instant(to->0@) is Some ==> params.len() >= 1
                && params.last() == rfc3339_instant(to->0@)->0
            &&& to is Some && rfc3339_instant(to->0@) is None && formatted_instant(
                to->0@,
                FILTER_DATE_FORMAT@,
            ) is Some ==> params.len() >= 1 && params.last() == formatted_instant(
                to->0@,
                FILTER_DATE_FORMAT@,
            )->0
        }),
{
}

/// A further row sets the metric of its own side and leaves the other side as it was.
pub proof fn lemma_summary_after_row(rows: Seq<SummaryRow>, row: SummaryRow)
    ensures
        is_default_row(row) ==> summary_of(rows.push(row)) == (PaymentSummaryDTO {
            default: row_metric(row),
            fallback: summary_of(rows).fallback,
        }),
        !is_default_row(row) ==> summary_of(rows.push(row)) == (PaymentSummaryDTO {
            default: summary_of(rows).default,
            fallback: row_metric(row),
        }),
{
    assert(rows.push(row).drop_last() =~= rows);
}

} // verus!
