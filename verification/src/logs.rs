//! Execution logs: adding one, and reading the most recent.

use vstd::prelude::*;
use crate::errors::{RowError, StoreError};
use crate::fresh::current_timestamp;
use crate::layout::{
    check_rows, column_faults, integer_at, integer_of, lemma_no_fault, row_fault, rows_fault,
    text_at, text_of, Kind,
};
use crate::outcome::{execute, query, written};
use crate::records::{ExecutionLog, ExecutionLogView};
use crate::state::{acquire, guarded, DbState};
use crate::values::{stored_row, Cell, CellView, Param, ParamView, Statement, StatementView};

verus! {

/// Adds one log; the database numbers it.
pub const ADD_LOG_SQL: &'static str =
    "INSERT INTO execution_logs (agent_id, action, status, output, error, created_at) VALUES (?1, ?2, ?3, ?4, ?5, ?6)";

/// Reads the most recent logs, the newest first, as many as the bound limit
/// allows.
pub const GET_LOGS_SQL: &'static str =
    "SELECT id, agent_id, action, status, output, error, created_at FROM execution_logs ORDER BY created_at DESC LIMIT ?1";

/// The number of logs that are read when the caller names no limit.
pub const DEFAULT_LOG_LIMIT: i64 = 100;

/// The limit that a reading of the logs runs with: the caller's, or the
/// default.
pub open spec fn limit_or_default(limit: Option<i64>) -> i64 {
    match limit {
        Some(n) => n,
        None => DEFAULT_LOG_LIMIT,
    }
}

/// The columns of a log's row: its number, then six texts.
pub open spec fn log_layout() -> Seq<Kind> {
    seq![
        Kind::Integer,
        Kind::Text,
        Kind::Text,
        Kind::Text,
        Kind::Text,
        Kind::Text,
        Kind::Text,
    ]
}

/// The log that a row stands for.
pub open spec fn log_of_row(row: Seq<CellView>) -> ExecutionLogView {
    ExecutionLogView {
        id: integer_at(row, 0),
        agent_id: text_at(row, 1),
        action: text_at(row, 2),
        status: text_at(row, 3),
        output: text_at(row, 4),
        error: text_at(row, 5),
        created_at: text_at(row, 6),
    }
}

/// The logs that a sequence of rows stands for, in the order of the rows.
pub open spec fn logs_of_rows(rows: Seq<Seq<CellView>>) -> Seq<ExecutionLogView> {
    Seq::new(rows.len(), |k: int| log_of_row(rows[k]))
}

/// The values that are bound when a log is added: its fields but the
/// number, in the order of the columns.
pub open spec fn log_params(log: ExecutionLogView) -> Seq<ParamView> {
    seq![
        ParamView::Text(log.agent_id),
        ParamView::Text(log.action),
        ParamView::Text(log.status),
        ParamView::Text(log.output),
        ParamView::Text(log.error),
        ParamView::Text(log.created_at),
    ]
}

/// The statement that adds a log with the given fields.
pub fn add_log_statement(
    agent_id: String,
    action: String,
    status: String,
    output: String,
    error: String,
    created_at: String,
) -> (statement: Statement)
    ensures
        statement@ == (StatementView {
            sql: ADD_LOG_SQL@,
            params: seq![
                ParamView::Text(agent_id@),
                ParamView::Text(action@),
                ParamView::Text(status@),
                ParamView::Text(output@),
                ParamView::Text(error@),
                ParamView::Text(created_at@),
            ],
        }),
{
    let mut params: Vec<Param> = Vec::new();
    params.push(Param::Text(agent_id));
    params.push(Param::Text(action));
    params.push(Param::Text(status));
    params.push(Param::Text(output));
    params.push(Param::Text(error));
    params.push(Param::Text(created_at));
    assert(params.deep_view() =~= seq![
        ParamView::Text(agent_id@),
        ParamView::Text(action@),
        ParamView::Text(status@),
        ParamView::Text(output@),
        ParamView::Text(error@),
        ParamView::Text(created_at@),
    ]);
    Statement { sql: ADD_LOG_SQL, params }
}

/// The statement that reads the most recent logs: at most `limit` of them,
/// or 100 where no limit is given.
pub fn get_logs_statement(limit: Option<i64>) -> (statement: Statement)
    ensures
        statement@ == (StatementView {
            sql: GET_LOGS_SQL@,
            params: seq![ParamView::Integer(limit_or_default(limit))],
        }),
{
    let bound: i64 = match limit {
        Some(n) => n,
        None => DEFAULT_LOG_LIMIT,
    };
    let mut params: Vec<Param> = Vec::new();
    params.push(Param::Integer(bound));
    assert(params.deep_view() =~= seq![ParamView::Integer(limit_or_default(limit))]);
    Statement { sql: GET_LOGS_SQL, params }
}

fn log_columns() -> (layout: Vec<Kind>)
    ensures
        layout@ == log_layout(),
{
    let layout = vec![
        Kind::Integer,
        Kind::Text,
        Kind::Text,
        Kind::Text,
        Kind::Text,
        Kind::Text,
        Kind::Text,
    ];
    assert(layout@ =~= log_layout());
    layout
}

fn log_from_row(row: &Vec<Cell>) -> (log: ExecutionLog)
    ensures
        log@ == log_of_row(row.deep_view()),
{
    ExecutionLog {
        id: integer_of(row, 0),
        agent_id: text_of(row, 1),
        action: text_of(row, 2),
        status: text_of(row, 3),
        output: text_of(row, 4),
        error: text_of(row, 5),
        created_at: text_of(row, 6),
    }
}

/// Reads rows as logs. Every row must have the columns of a log; the first
/// fault of the first row that has not is the error. The logs come in the
/// order of the rows, one for each row.
pub fn logs_from_rows(rows: &Vec<Vec<Cell>>) -> (res: Result<Vec<ExecutionLog>, RowError>)
    ensures
        match rows_fault(rows.deep_view(), log_layout()) {
            Some(fault) => res == Err::<Vec<ExecutionLog>, RowError>(fault),
            None => res matches Ok(logs) && logs.deep_view() == logs_of_rows(rows.deep_view()),
        },
{
    let layout = log_columns();
    match check_rows(rows, &layout) {
        Err(fault) => {
            return Err(fault);
        },
        Ok(()) => {},
    }
    let mut logs: Vec<ExecutionLog> = Vec::new();
    let mut k: usize = 0;
    while k < rows.len()
        invariant
            k <= rows.len(),
            logs.len() == k,
            forall|j: int| 0 <= j < k ==> (#[trigger] logs[j])@ == log_of_row(rows.deep_view()[j]),
        decreases rows.len() - k,
    {
        assert(rows.deep_view()[k as int] == rows[k as int].deep_view());
        logs.push(log_from_row(&rows[k]));
        k += 1;
    }
    assert(logs.deep_view() =~= logs_of_rows(rows.deep_view()));
    Ok(logs)
}

/// What a reading of the logs may return for an answer of the database.
pub open spec fn is_logs_answer(
    outcome: Result<Vec<Vec<Cell>>, String>,
    res: Result<Vec<ExecutionLog>, StoreError>,
) -> bool {
    match outcome {
        Err(description) => res == Err::<Vec<ExecutionLog>, StoreError>(
            StoreError::Database(description),
        ),
        Ok(rows) => match rows_fault(rows.deep_view(), log_layout()) {
            Some(fault) => res == Err::<Vec<ExecutionLog>, StoreError>(StoreError::Row(fault)),
            None => res matches Ok(logs) && logs.deep_view() == logs_of_rows(rows.deep_view()),
        },
    }
}

/// What a reading of the logs returns for an answer of the database: its
/// failure, the fault of a row that is no log, or the logs in the order of
/// the rows.
pub fn logs_answer(outcome: Result<Vec<Vec<Cell>>, String>) -> (res: Result<
    Vec<ExecutionLog>,
    StoreError,
>)
    ensures
        is_logs_answer(outcome, res),
{
    match outcome {
        Err(description) => Err(StoreError::Database(description)),
        Ok(rows) => match logs_from_rows(&rows) {
            Ok(logs) => Ok(logs),
            Err(fault) => Err(StoreError::Row(fault)),
        },
    }
}

/// Adds a log with the current time. The database numbers it; the number
/// is not returned.
pub fn add_log(
    db: &DbState,
    agent_id: String,
    action: String,
    status: String,
    output: String,
    error: String,
) -> (res: Result<(), StoreError>)
    ensures
        res matches Err(failure) ==> failure is Lock || failure is Database,
{
    let guard = acquire(db)?;
    let now = current_timestamp();
    let statement = add_log_statement(agent_id, action, status, output, error, now);
    let outcome = execute(guarded(&guard), &statement);
    written(outcome, ())
}

/// Reads the most recent logs, the newest first as the database orders
/// them: as many as `limit` allows, or 100 where no limit is given. The
/// limit is handed on as it is; the database takes a negative one for no
/// limit at all.
pub fn get_logs(db: &DbState, limit: Option<i64>) -> (res: Result<Vec<ExecutionLog>, StoreError>)
    ensures
        res matches Err(StoreError::Lock(_)) || exists|outcome: Result<Vec<Vec<Cell>>, String>|
            is_logs_answer(outcome, res),
{
    let guard = acquire(db)?;
    let statement = get_logs_statement(limit);
    let outcome = query(guarded(&guard), &statement);
    let ghost answered = outcome;
    let res = logs_answer(outcome);
    assert(is_logs_answer(answered, res));
    res
}

/// The rows that the database holds of logs that were added with the
/// values that [`add_log_statement`] binds, when it stores them unchanged
/// behind the number that it gave each.
pub open spec fn log_rows(logs: Seq<ExecutionLogView>) -> Seq<Seq<CellView>> {
    Seq::new(
        logs.len(),
        |k: int| seq![CellView::Integer(logs[k].id)] + stored_row(log_params(logs[k])),
    )
}

/// Logs that are read back as they were bound are the logs that were added,
/// each under its number: their rows have the columns of a log, and reading
/// them gives the same logs, field for field and in the order of the rows.
pub proof fn lemma_logs_round_trip(logs: Seq<ExecutionLogView>)
    ensures
        rows_fault(log_rows(logs), log_layout()) is None,
        logs_of_rows(log_rows(logs)) == logs,
{
    let rows = log_rows(logs);
    let faults = Seq::new(rows.len(), |k: int| row_fault(rows[k], log_layout()));
    assert forall|k: int| 0 <= k < faults.len() implies faults[k] is None by {
        lemma_no_fault(column_faults(rows[k], log_layout()));
    }
    lemma_no_fault(faults);
    assert(logs_of_rows(rows) =~= logs);
}

/// A reading gives one log for each row, so no more logs than the database
/// returned rows.
pub proof fn lemma_logs_within_rows(rows: Seq<Seq<CellView>>, bound: int)
    requires
        rows.len() <= bound,
    ensures
        logs_of_rows(rows).len() == rows.len(),
        logs_of_rows(rows).len() <= bound,
{
}

} // verus!
