//! The database itself: the calls into rusqlite. Nothing in this file is
//! proved; each item says what it takes on trust.

use vstd::prelude::*;
use rusqlite::params_from_iter;
use rusqlite::types::Value;
use crate::values::{Cell, Param};

verus! {

/// `rusqlite::Connection`, an open SQLite database. Nothing inside it is
/// visible to the proofs.
#[verifier::external_type_specification]
#[verifier::external_body]
pub struct ExConnection(rusqlite::Connection);

/// `rusqlite::Error`, carried from a failed call to [`error_text`].
#[verifier::external_type_specification]
#[verifier::external_body]
pub struct ExError(rusqlite::Error);

/// Calls `rusqlite::Connection::execute_batch`, which runs every statement
/// of `sql` in turn. What the database does with them depends on what it
/// holds, so nothing is claimed of the outcome.
#[verifier::external_body]
pub(crate) fn run_batch(conn: &rusqlite::Connection, sql: &str) -> (done: Result<
    (),
    rusqlite::Error,
>) {
    conn.execute_batch(sql)
}

/// Calls `rusqlite::Connection::execute` with the values of `params` bound
/// to the placeholders of `sql`, integers as integers and text as text. On
/// success rusqlite reports how many rows the statement changed; which
/// number that is depends on what the database holds, so nothing is claimed
/// of the outcome.
#[verifier::external_body]
pub(crate) fn run_execute(conn: &rusqlite::Connection, sql: &str, params: &Vec<Param>) -> (changed:
    Result<usize, rusqlite::Error>) {
    conn.execute(sql, params_from_iter(params.iter().map(|p| match p {
        Param::Integer(n) => Value::Integer(*n),
        Param::Text(s) => Value::Text(s.clone()),
    })))
}

/// Calls `rusqlite::Connection::prepare` and `rusqlite::Statement::query_map`
/// with the values of `params` bound as in [`run_execute`], and reads every
/// column of every result row with `rusqlite::Row::get` as a dynamically
/// typed value. The rows come in the order in which the database returns
/// them, each with the statement's columns from left to right. Which rows
/// come depends on what the database holds, so nothing is claimed of the
/// outcome.
#[verifier::external_body]
pub(crate) fn fetch_rows(conn: &rusqlite::Connection, sql: &str, params: &Vec<Param>) -> (rows:
    Result<Vec<Vec<Cell>>, rusqlite::Error>) {
    let mut stmt = conn.prepare(sql)?;
    let width = stmt.column_count();
    let bound = params_from_iter(params.iter().map(|p| match p {
        Param::Integer(n) => Value::Integer(*n),
        Param::Text(s) => Value::Text(s.clone()),
    }));
    let rows = stmt.query_map(bound, |row| (0..width).map(|i| Ok(match row.get(i)? {
        Value::Null => Cell::Null,
        Value::Integer(n) => Cell::Integer(n),
        Value::Real(_) => Cell::Real,
        Value::Text(s) => Cell::Text(s),
        Value::Blob(_) => Cell::Blob,
    })).collect())?;
    rows.collect()
}

/// Calls `to_string` on a `rusqlite::Error`: the description that rusqlite
/// gives of the failure. Nothing is claimed of the text.
#[verifier::external_body]
pub(crate) fn error_text(error: &rusqlite::Error) -> (text: String) {
    error.to_string()
}

} // verus!
