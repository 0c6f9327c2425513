//! Running a statement, and from what the database answered to what an
//! operation returns.

use vstd::prelude::*;
use crate::database::{error_text, fetch_rows, run_execute};
use crate::errors::StoreError;
use crate::values::{Cell, Statement};

verus! {

/// Replaces the error of a database call by its description.
pub fn described<T>(outcome: Result<T, rusqlite::Error>) -> (res: Result<T, String>)
    ensures
        outcome matches Ok(value) ==> res == Ok::<T, String>(value),
        outcome is Err ==> res is Err,
{
    match outcome {
        Ok(value) => Ok(value),
        Err(error) => Err(error_text(&error)),
    }
}

/// Runs a statement that writes. The answer is the number of rows that it
/// changed, or the database's description of its failure; either depends on
/// what the database holds.
pub fn execute(conn: &rusqlite::Connection, statement: &Statement) -> (outcome: Result<
    usize,
    String,
>) {
    described(run_execute(conn, statement.sql, &statement.params))
}

/// Runs a statement that reads. The answer is the rows that it found, in
/// the order in which the database returns them, or the database's
/// description of its failure; either depends on what the database holds.
pub fn query(conn: &rusqlite::Connection, statement: &Statement) -> (outcome: Result<
    Vec<Vec<Cell>>,
    String,
>) {
    described(fetch_rows(conn, statement.sql, &statement.params))
}

/// The result of an operation that writes: `value` where the statement ran,
/// however many rows it changed, none included; else the database's failure.
pub fn written<T, N>(outcome: Result<N, String>, value: T) -> (res: Result<T, StoreError>)
    ensures
        res == match outcome {
            Ok(_) => Ok::<T, StoreError>(value),
            Err(description) => Err::<T, StoreError>(StoreError::Database(description)),
        },
{
    match outcome {
        Ok(_) => Ok(value),
        Err(description) => Err(StoreError::Database(description)),
    }
}

} // verus!
