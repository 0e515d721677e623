//! Reducing a query's outcome to a single signed 64-bit metric.
//!
//! The binary executes the caller's query against the backend and hands the
//! outcome here as plain values: the rows (each column already rendered as
//! text), or the failure it saw. The reduction is deliberate and specific:
//!
//! * an empty result set yields `0`;
//! * a single row whose first column parses as an `i64` yields that value;
//! * a single row whose first column does not parse yields `1`;
//! * two or more rows yield the row count, whatever the rows hold;
//! * a backend failure other than connection loss is soft and yields `0`;
//! * a reported connection loss is fatal — the process must exit.

use vstd::prelude::*;

use crate::parse::is_i64_string;
use crate::parse::parse_i64;
use crate::parse::spec_i64_value;
use crate::resilience::FatalError;

verus! {

/// What executing a query against the backend produced.
#[derive(Debug, PartialEq)]
pub enum QueryOutcome {
    /// The query ran: its rows, in order, each column as text.
    Rows(Vec<Vec<String>>),
    /// The backend reported that the connection is gone.
    ConnectionLost,
    /// The query failed for any other reason; the message is kept for logging.
    QueryError(String),
}

/// The rows as a mathematical value: a sequence of rows, each a sequence of
/// column texts.
pub open spec fn rows_view(rows: Vec<Vec<String>>) -> Seq<Seq<Seq<char>>> {
    rows@.map_values(|row: Vec<String>| row@.map_values(|col: String| col@))
}

/// The metric a lone first row contributes: the first column's value when it
/// parses as an `i64`, else the row count so far, which is 1.
pub open spec fn first_row_metric(row: Seq<Seq<char>>) -> int {
    if row.len() > 0 && is_i64_string(row[0]) {
        spec_i64_value(row[0])
    } else {
        1
    }
}

/// The reduction of a whole result set to its metric value.
pub open spec fn spec_reduce(rows: Seq<Seq<Seq<char>>>) -> int {
    if rows.len() == 0 {
        0
    } else if rows.len() == 1 {
        first_row_metric(rows[0])
    } else {
        rows.len() as int
    }
}

/// Consume a result set row by row and reduce it to the metric value.
pub fn reduce_rows(rows: &Vec<Vec<String>>) -> (r: i64)
    requires
        rows@.len() <= i64::MAX,
    ensures
        r == spec_reduce(rows_view(*rows)),
        rows@.len() == 0 ==> r == 0,
        rows@.len() == 1 && rows@[0]@.len() > 0 && is_i64_string(rows@[0]@[0]@) ==> r
            == spec_i64_value(rows@[0]@[0]@),
        rows@.len() == 1 && !(rows@[0]@.len() > 0 && is_i64_string(rows@[0]@[0]@)) ==> r == 1,
        rows@.len() >= 2 ==> r == rows@.len(),
{
    let n = rows.len();
    let mut metric: i64 = 0;
    let mut counter: i64 = 0;
    let mut idx: usize = 0;
    while idx < n
        invariant
            0 <= idx <= n,
            n == rows@.len(),
            n <= i64::MAX,
            counter == idx,
            idx == 0 ==> metric == 0,
            idx == 1 ==> metric == first_row_metric(rows_view(*rows)[0]),
            idx >= 2 ==> metric == idx,
        decreases n - idx,
    {
        counter = counter + 1;
        if counter == 1 {
            let row = &rows[idx];
            proof {
                assert(rows_view(*rows)[0] == rows@[0]@.map_values(|col: String| col@));
            }
            if row.len() > 0 {
                proof {
                    assert(rows_view(*rows)[0][0] == rows@[0]@[0]@);
                }
                match parse_i64(row[0].as_str()) {
                    Some(value) => {
                        metric = value;
                    },
                    None => {
                        metric = counter;
                    },
                }
            } else {
                metric = counter;
            }
        } else {
            metric = counter;
        }
        idx = idx + 1;
    }
    proof {
        if rows@.len() == 1 {
            assert(rows_view(*rows)[0] == rows@[0]@.map_values(|col: String| col@));
            if rows@[0]@.len() > 0 {
                assert(rows_view(*rows)[0][0] == rows@[0]@[0]@);
            }
        }
    }
    metric
}

/// The outcome's metric, or the fatal condition it forces. A soft query
/// failure reduces to `0`; a lost connection is `FatalError::ConnectionLost`.
pub open spec fn spec_evaluate(o: QueryOutcome) -> Result<int, FatalError> {
    match o {
        QueryOutcome::Rows(rows) => Ok(spec_reduce(rows_view(rows))),
        QueryOutcome::ConnectionLost => Err(FatalError::ConnectionLost),
        QueryOutcome::QueryError(_) => Ok(0),
    }
}

/// Reduce a query outcome to its metric value, or report the fatal condition
/// that must end the process.
pub fn evaluate(outcome: &QueryOutcome) -> (r: Result<i64, FatalError>)
    requires
        *outcome matches QueryOutcome::Rows(rows) ==> rows@.len() <= i64::MAX,
    ensures
        match r {
            Ok(v) => spec_evaluate(*outcome) == Ok::<int, FatalError>(v as int),
            Err(e) => spec_evaluate(*outcome) == Err::<int, FatalError>(e),
        },
{
    match outcome {
        QueryOutcome::Rows(rows) => Ok(reduce_rows(rows)),
        QueryOutcome::ConnectionLost => Err(FatalError::ConnectionLost),
        QueryOutcome::QueryError(_) => Ok(0),
    }
}

} // verus!
