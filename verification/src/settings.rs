//! Settings: one value for each key.

use vstd::prelude::*;
use crate::errors::StoreError;
use crate::layout::{check_row, row_fault, text_at, text_of, Kind};
use crate::outcome::{execute, query, written};
use crate::state::{acquire, guarded, DbState};
use crate::values::{Cell, Param, ParamView, Statement, StatementView};

verus! {

/// Reads the value of the bound key.
pub const GET_SETTING_SQL: &'static str = "SELECT value FROM settings WHERE key = ?1";

/// Gives the bound key the bound value, whether the key had one or not.
pub const SET_SETTING_SQL: &'static str =
    "INSERT OR REPLACE INTO settings (key, value) VALUES (?1, ?2)";

/// Removes the bound key, if it is there.
pub const DELETE_SETTING_SQL: &'static str = "DELETE FROM settings WHERE key = ?1";

/// The one column of a row that holds a setting's value.
pub open spec fn value_layout() -> Seq<Kind> {
    seq![Kind::Text]
}

/// The statement that reads the value of `key`.
pub fn get_setting_statement(key: String) -> (statement: Statement)
    ensures
        statement@ == (StatementView { sql: GET_SETTING_SQL@, params: seq![ParamView::Text(key@)] }),
{
    let mut params: Vec<Param> = Vec::new();
    params.push(Param::Text(key));
    assert(params.deep_view() =~= seq![ParamView::Text(key@)]);
    Statement { sql: GET_SETTING_SQL, params }
}

/// The statement that gives `key` the value `value`.
pub fn set_setting_statement(key: String, value: String) -> (statement: Statement)
    ensures
        statement@ == (StatementView {
            sql: SET_SETTING_SQL@,
            params: seq![ParamView::Text(key@), ParamView::Text(value@)],
        }),
{
    let mut params: Vec<Param> = Vec::new();
    params.push(Param::Text(key));
    params.push(Param::Text(value));
    assert(params.deep_view() =~= seq![ParamView::Text(key@), ParamView::Text(value@)]);
    Statement { sql: SET_SETTING_SQL, params }
}

/// The statement that removes `key`.
pub fn delete_setting_statement(key: String) -> (statement: Statement)
    ensures
        statement@ == (StatementView {
            sql: DELETE_SETTING_SQL@,
            params: seq![ParamView::Text(key@)],
        }),
{
    let mut params: Vec<Param> = Vec::new();
    params.push(Param::Text(key));
    assert(params.deep_view() =~= seq![ParamView::Text(key@)]);
    Statement { sql: DELETE_SETTING_SQL, params }
}

/// What a reading of a setting may return for an answer of the database.
/// No row means that the key has no value, which is no error. Of several
/// rows only the first counts.
pub open spec fn is_setting_answer(
    outcome: Result<Vec<Vec<Cell>>, String>,
    res: Result<Option<String>, StoreError>,
) -> bool {
    match outcome {
        Err(description) => res == Err::<Option<String>, StoreError>(
            StoreError::Database(description),
        ),
        Ok(rows) => if rows.len() == 0 {
            res == Ok::<Option<String>, StoreError>(None)
        } else {
            match row_fault(rows.deep_view()[0], value_layout()) {
                Some(fault) => res == Err::<Option<String>, StoreError>(StoreError::Row(fault)),
                None => res matches Ok(Some(value)) && value@ == text_at(rows.deep_view()[0], 0),
            }
        },
    }
}

/// What a reading of a setting returns for an answer of the database: its
/// failure, nothing where no row came, or the text in the first row.
pub fn setting_answer(outcome: Result<Vec<Vec<Cell>>, String>) -> (res: Result<
    Option<String>,
    StoreError,
>)
    ensures
        is_setting_answer(outcome, res),
{
    match outcome {
        Err(description) => Err(StoreError::Database(description)),
        Ok(rows) => {
            if rows.len() == 0 {
                return Ok(None);
            }
            assert(rows.deep_view()[0] == rows[0].deep_view());
            let layout = vec![Kind::Text];
            assert(layout@ =~= value_layout());
            match check_row(&rows[0], &layout) {
                Err(fault) => Err(StoreError::Row(fault)),
                Ok(()) => Ok(Some(text_of(&rows[0], 0))),
            }
        },
    }
}

/// Reads the value of `key`. A key that has none gives `None`, not an error.
pub fn get_setting(db: &DbState, key: String) -> (res: Result<Option<String>, StoreError>)
    ensures
        res matches Err(StoreError::Lock(_)) || exists|outcome: Result<Vec<Vec<Cell>>, String>|
            is_setting_answer(outcome, res),
{
    let guard = acquire(db)?;
    let statement = get_setting_statement(key);
    let outcome = query(guarded(&guard), &statement);
    let ghost answered = outcome;
    let res = setting_answer(outcome);
    assert(is_setting_answer(answered, res));
    res
}

/// Gives `key` the value `value`: a new key is added, the value of a known
/// key is replaced.
pub fn set_setting(db: &DbState, key: String, value: String) -> (res: Result<(), StoreError>)
    ensures
        res matches Err(failure) ==> failure is Lock || failure is Database,
{
    let guard = acquire(db)?;
    let statement = set_setting_statement(key, value);
    let outcome = execute(guarded(&guard), &statement);
    written(outcome, ())
}

/// Removes `key`. Where it is not there, the database changes nothing and
/// the call succeeds all the same.
pub fn delete_setting(db: &DbState, key: String) -> (res: Result<(), StoreError>)
    ensures
        res matches Err(failure) ==> failure is Lock || failure is Database,
{
    let guard = acquire(db)?;
    let statement = delete_setting_statement(key);
    let outcome = execute(guarded(&guard), &statement);
    written(outcome, ())
}

} // verus!
