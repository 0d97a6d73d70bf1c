//! What the PostgreSQL driver hands back, as the replies the store understands.
//!
//! The driver's results and errors are opaque here. What the library needs of
//! them is read through two trusted calls, each a function of its argument
//! alone: how many rows an execution touched, and whether an error is the one
//! with which a fetch answers "no such row". The text of an error is not made
//! here: the caller writes it and hands it in beside the error.

use vstd::prelude::*;
use crate::database::{Counted, Executed, Fetched, StepOutcome};
use crate::document::PersistedDocument;

verus! {

/// `sqlx::Error`: every way an `sqlx` call can fail. Opaque.
#[verifier::external_type_specification]
#[verifier::external_body]
pub struct ExError(sqlx::Error);

/// `sqlx::postgres::PgQueryResult`: what executing a statement reports. Opaque.
#[verifier::external_type_specification]
#[verifier::external_body]
pub struct ExPgQueryResult(sqlx::postgres::PgQueryResult);

/// The number of rows that `PgQueryResult::rows_affected` reports for `result`.
pub uninterp spec fn reported_rows(result: sqlx::postgres::PgQueryResult) -> u64;

/// Whether `error` is `sqlx::Error::RowNotFound`, the error with which
/// `fetch_one` answers a query that matched no row.
pub uninterp spec fn reports_no_row(error: sqlx::Error) -> bool;

/// `PgQueryResult::rows_affected`: reads the count that the result holds. The
/// call returns a field and is a function of the result alone.
#[verifier::external_body]
fn rows_affected(result: &sqlx::postgres::PgQueryResult) -> (count: u64)
    ensures
        count == reported_rows(*result),
{
    result.rows_affected()
}

/// Tells the variant `RowNotFound` of `sqlx::Error` from every other. The
/// answer depends on the variant alone, and nothing of the error is read.
#[verifier::external_body]
fn is_row_not_found(error: &sqlx::Error) -> (found: bool)
    ensures
        found == reports_no_row(*error),
{
    match error {
        sqlx::Error::RowNotFound => true,
        _ => false,
    }
}

/// A driver error, and its text as the caller wrote it.
#[derive(Debug)]
pub struct Failure {
    /// The error as the driver raised it.
    pub error: sqlx::Error,
    /// The error in words; it becomes the cause that the store reports.
    pub text: String,
}

/// The reply to fetching one row. A row that came back is handed on as it is.
/// The driver's "row not found" becomes `NoRow`, whatever its text; any other
/// error becomes `Failed` with its text.
pub fn fetched(result: Result<PersistedDocument, Failure>) -> (reply: Fetched)
    ensures
        reply == match result {
            Ok(document) => Fetched::Row(document),
            Err(failure) => if reports_no_row(failure.error) {
                Fetched::NoRow
            } else {
                Fetched::Failed(failure.text)
            },
        },
{
    match result {
        Ok(document) => Fetched::Row(document),
        Err(failure) => {
            if is_row_not_found(&failure.error) {
                Fetched::NoRow
            } else {
                Fetched::Failed(failure.text)
            }
        },
    }
}

/// The reply to executing a statement: done, with the number of rows that the
/// driver reports; or failed, with the error's text. No error has a meaning of
/// its own here, "row not found" included.
pub fn executed(result: Result<sqlx::postgres::PgQueryResult, Failure>) -> (reply: Executed)
    ensures
        reply == match result {
            Ok(done) => Executed::Done { rows_affected: reported_rows(done) },
            Err(failure) => Executed::Failed(failure.text),
        },
{
    match result {
        Ok(done) => Executed::Done { rows_affected: rows_affected(&done) },
        Err(failure) => Executed::Failed(failure.text),
    }
}

/// The reply to counting: the count that came back, or failed with the
/// error's text.
pub fn counted(result: Result<i64, Failure>) -> (reply: Counted)
    ensures
        reply == match result {
            Ok(rows) => Counted::Rows(rows),
            Err(failure) => Counted::Failed(failure.text),
        },
{
    match result {
        Ok(rows) => Counted::Rows(rows),
        Err(failure) => Counted::Failed(failure.text),
    }
}

/// How a step of the startup ended: it succeeded exactly where the driver
/// raised no error; else it failed, with the error's text as the cause.
pub fn step_outcome(result: Result<(), Failure>) -> (outcome: StepOutcome)
    ensures
        outcome == match result {
            Ok(_) => StepOutcome::Succeeded,
            Err(failure) => StepOutcome::Failed(failure.text),
        },
{
    match result {
        Ok(_) => StepOutcome::Succeeded,
        Err(failure) => StepOutcome::Failed(failure.text),
    }
}

} // verus!
