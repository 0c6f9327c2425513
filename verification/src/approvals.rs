//! The approval queue: actions that wait for a person to sign them off.

use vstd::prelude::*;
use crate::errors::{RowError, StoreError};
use crate::fresh::{current_timestamp, fresh_id, is_random_id};
use crate::layout::{
    check_rows, column_faults, lemma_no_fault, row_fault, rows_fault, text_at, text_of, Kind,
};
use crate::outcome::{execute, query, written};
use crate::records::{ApprovalItem, ApprovalItemView};
use crate::state::{acquire, guarded, DbState};
use crate::values::{stored, text_param, Cell, CellView, Param, ParamView, Statement, StatementView};

verus! {

/// The status of every new approval item.
pub const PENDING: &'static str = "pending";

/// Adds one approval item, with the status 'pending'.
pub const ADD_APPROVAL_SQL: &'static str =
    "INSERT INTO approval_queue (id, agent_id, action_type, content_preview, status, created_at) VALUES (?1, ?2, ?3, ?4, 'pending', ?5)";

/// Gives the item with the second bound value as its identifier the first
/// bound value as its status.
pub const UPDATE_APPROVAL_SQL: &'static str = "UPDATE approval_queue SET status = ?1 WHERE id = ?2";

/// Reads every approval item, the newest first.
pub const GET_APPROVALS_SQL: &'static str =
    "SELECT id, agent_id, action_type, content_preview, status, created_at FROM approval_queue ORDER BY created_at DESC";

/// The columns of an approval item's row: six texts.
pub open spec fn approval_layout() -> Seq<Kind> {
    seq![Kind::Text, Kind::Text, Kind::Text, Kind::Text, Kind::Text, Kind::Text]
}

/// The approval item that a row stands for.
pub open spec fn approval_of_row(row: Seq<CellView>) -> ApprovalItemView {
    ApprovalItemView {
        id: text_at(row, 0),
        agent_id: text_at(row, 1),
        action_type: text_at(row, 2),
        content_preview: text_at(row, 3),
        status: text_at(row, 4),
        created_at: text_at(row, 5),
    }
}

/// The approval items that a sequence of rows stands for, in the order of
/// the rows.
pub open spec fn approvals_of_rows(rows: Seq<Seq<CellView>>) -> Seq<ApprovalItemView> {
    Seq::new(rows.len(), |k: int| approval_of_row(rows[k]))
}

/// The values that are bound when an approval item is added: its fields
/// but the status, in the order of the columns.
pub open spec fn approval_params(item: ApprovalItemView) -> Seq<ParamView> {
    seq![
        ParamView::Text(item.id),
        ParamView::Text(item.agent_id),
        ParamView::Text(item.action_type),
        ParamView::Text(item.content_preview),
        ParamView::Text(item.created_at),
    ]
}

/// The row that the database keeps of an approval item that was added with
/// the given values, when it stores them unchanged: the status stands
/// between the preview and the creation time.
pub open spec fn approval_row(params: Seq<ParamView>, status: Seq<char>) -> Seq<CellView> {
    seq![
        stored(params[0]),
        stored(params[1]),
        stored(params[2]),
        stored(params[3]),
        CellView::Text(status),
        stored(params[4]),
    ]
}

/// The record of a new approval item: the given fields, and the status
/// "pending".
pub fn approval_record(
    id: String,
    created_at: String,
    agent_id: String,
    action_type: String,
    content_preview: String,
) -> (item: ApprovalItem)
    ensures
        item@ == (ApprovalItemView {
            id: id@,
            agent_id: agent_id@,
            action_type: action_type@,
            content_preview: content_preview@,
            status: PENDING@,
            created_at: created_at@,
        }),
{
    ApprovalItem { id, agent_id, action_type, content_preview, status: PENDING.to_owned(), created_at }
}

/// The statement that adds `item`. Its status is not bound: the statement
/// itself sets 'pending'.
pub fn add_approval_statement(item: &ApprovalItem) -> (statement: Statement)
    ensures
        statement@ == (StatementView { sql: ADD_APPROVAL_SQL@, params: approval_params(item@) }),
{
    let mut params: Vec<Param> = Vec::new();
    params.push(text_param(&item.id));
    params.push(text_param(&item.agent_id));
    params.push(text_param(&item.action_type));
    params.push(text_param(&item.content_preview));
    params.push(text_param(&item.created_at));
    assert(params.deep_view() =~= approval_params(item@));
    Statement { sql: ADD_APPROVAL_SQL, params }
}

/// The statement that gives the item `id` the status `status`. Any text is
/// a status.
pub fn update_approval_statement(id: String, status: String) -> (statement: Statement)
    ensures
        statement@ == (StatementView {
            sql: UPDATE_APPROVAL_SQL@,
            params: seq![ParamView::Text(status@), ParamView::Text(id@)],
        }),
{
    let mut params: Vec<Param> = Vec::new();
    params.push(Param::Text(status));
    params.push(Param::Text(id));
    assert(params.deep_view() =~= seq![ParamView::Text(status@), ParamView::Text(id@)]);
    Statement { sql: UPDATE_APPROVAL_SQL, params }
}

/// The statement that reads every approval item.
pub fn get_approvals_statement() -> (statement: Statement)
    ensures
        statement@ == (StatementView { sql: GET_APPROVALS_SQL@, params: Seq::empty() }),
{
    let params: Vec<Param> = Vec::new();
    assert(params.deep_view() =~= Seq::<ParamView>::empty());
    Statement { sql: GET_APPROVALS_SQL, params }
}

fn approval_columns() -> (layout: Vec<Kind>)
    ensures
        layout@ == approval_layout(),
{
    let layout = vec![Kind::Text, Kind::Text, Kind::Text, Kind::Text, Kind::Text, Kind::Text];
    assert(layout@ =~= approval_layout());
    layout
}

fn approval_from_row(row: &Vec<Cell>) -> (item: ApprovalItem)
    ensures
        item@ == approval_of_row(row.deep_view()),
{
    ApprovalItem {
        id: text_of(row, 0),
        agent_id: text_of(row, 1),
        action_type: text_of(row, 2),
        content_preview: text_of(row, 3),
        status: text_of(row, 4),
        created_at: text_of(row, 5),
    }
}

/// Reads rows as approval items. Every row must have the columns of an
/// approval item; the first fault of the first row that has not is the
/// error. The items come in the order of the rows. Whatever text a row has
/// for a status is the item's status.
pub fn approvals_from_rows(rows: &Vec<Vec<Cell>>) -> (res: Result<Vec<ApprovalItem>, RowError>)
    ensures
        match rows_fault(rows.deep_view(), approval_layout()) {
            Some(fault) => res == Err::<Vec<ApprovalItem>, RowError>(fault),
            None => res matches Ok(items) && items.deep_view() == approvals_of_rows(
                rows.deep_view(),
            ),
        },
{
    let layout = approval_columns();
    match check_rows(rows, &layout) {
        Err(fault) => {
            return Err(fault);
        },
        Ok(()) => {},
    }
    let mut items: Vec<ApprovalItem> = Vec::new();
    let mut k: usize = 0;
    while k < rows.len()
        invariant
            k <= rows.len(),
            items.len() == k,
            forall|j: int|
                0 <= j < k ==> (#[trigger] items[j])@ == approval_of_row(rows.deep_view()[j]),
        decreases rows.len() - k,
    {
        assert(rows.deep_view()[k as int] == rows[k as int].deep_view());
        items.push(approval_from_row(&rows[k]));
        k += 1;
    }
    assert(items.deep_view() =~= approvals_of_rows(rows.deep_view()));
    Ok(items)
}

/// What a reading of the queue may return for an answer of the database.
pub open spec fn is_approvals_answer(
    outcome: Result<Vec<Vec<Cell>>, String>,
    res: Result<Vec<ApprovalItem>, StoreError>,
) -> bool {
    match outcome {
        Err(description) => res == Err::<Vec<ApprovalItem>, StoreError>(
            StoreError::Database(description),
        ),
        Ok(rows) => match rows_fault(rows.deep_view(), approval_layout()) {
            Some(fault) => res == Err::<Vec<ApprovalItem>, StoreError>(StoreError::Row(fault)),
            None => res matches Ok(items) && items.deep_view() == approvals_of_rows(
                rows.deep_view(),
            ),
        },
    }
}

/// What a reading of the queue returns for an answer of the database: its
/// failure, the fault of a row that is no approval item, or the items in
/// the order of the rows.
pub fn approvals_answer(outcome: Result<Vec<Vec<Cell>>, String>) -> (res: Result<
    Vec<ApprovalItem>,
    StoreError,
>)
    ensures
        is_approvals_answer(outcome, res),
{
    match outcome {
        Err(description) => Err(StoreError::Database(description)),
        Ok(rows) => match approvals_from_rows(&rows) {
            Ok(items) => Ok(items),
            Err(fault) => Err(StoreError::Row(fault)),
        },
    }
}

/// Creates an approval item with a fresh identifier, the current time and
/// the status "pending", and adds it to the database. The record is
/// returned where the database took it.
pub fn add_approval(
    db: &DbState,
    agent_id: String,
    action_type: String,
    content_preview: String,
) -> (res: Result<ApprovalItem, StoreError>)
    ensures
        match res {
            Ok(item) => {
                &&& is_random_id(item.id@)
                &&& item.agent_id@ == agent_id@
                &&& item.action_type@ == action_type@
                &&& item.content_preview@ == content_preview@
                &&& item.status@ == PENDING@
            },
            Err(failure) => failure is Lock || failure is Database,
        },
{
    let guard = acquire(db)?;
    let id = fresh_id();
    let now = current_timestamp();
    let item = approval_record(id, now, agent_id, action_type, content_preview);
    let statement = add_approval_statement(&item);
    let outcome = execute(guarded(&guard), &statement);
    written(outcome, item)
}

/// Gives the item `id` the status `status`. No status is refused. Where
/// there is no such item, the database changes nothing and the call
/// succeeds all the same.
pub fn update_approval(db: &DbState, id: String, status: String) -> (res: Result<(), StoreError>)
    ensures
        res matches Err(failure) ==> failure is Lock || failure is Database,
{
    let guard = acquire(db)?;
    let statement = update_approval_statement(id, status);
    let outcome = execute(guarded(&guard), &statement);
    written(outcome, ())
}

/// Reads every approval item, the newest first as the database orders
/// them.
pub fn get_approvals(db: &DbState) -> (res: Result<Vec<ApprovalItem>, StoreError>)
    ensures
        res matches Err(StoreError::Lock(_)) || exists|outcome: Result<Vec<Vec<Cell>>, String>|
            is_approvals_answer(outcome, res),
{
    let guard = acquire(db)?;
    let statement = get_approvals_statement();
    let outcome = query(guarded(&guard), &statement);
    let ghost answered = outcome;
    let res = approvals_answer(outcome);
    assert(is_approvals_answer(answered, res));
    res
}

/// The rows that the database holds of approval items that were added
/// with the values that [`add_approval_statement`] binds, when it stores
/// them unchanged, each with the status that the item has by now.
pub open spec fn approval_rows(items: Seq<ApprovalItemView>) -> Seq<Seq<CellView>> {
    Seq::new(items.len(), |k: int| approval_row(approval_params(items[k]), items[k].status))
}

/// Approval items that are read back as they were bound are the items that
/// were added, each with the status that the database holds for it, be it
/// "pending" or any other text: their rows have the columns of an approval
/// item, and reading them gives the same items, field for field and in the
/// order of the rows.
pub proof fn lemma_approvals_round_trip(items: Seq<ApprovalItemView>)
    ensures
        rows_fault(approval_rows(items), approval_layout()) is None,
        approvals_of_rows(approval_rows(items)) == items,
{
    let rows = approval_rows(items);
    let faults = Seq::new(rows.len(), |k: int| row_fault(rows[k], approval_layout()));
    assert forall|k: int| 0 <= k < faults.len() implies faults[k] is None by {
        lemma_no_fault(column_faults(rows[k], approval_layout()));
    }
    lemma_no_fault(faults);
    assert(approvals_of_rows(rows) =~= items);
}

/// Reading the queue keeps the order of the rows: a relation that holds
/// between the creation times of every earlier and every later row holds
/// between the creation times of every earlier and every later item.
pub proof fn lemma_approvals_keep_order(
    rows: Seq<Seq<CellView>>,
    before: spec_fn(Seq<char>, Seq<char>) -> bool,
)
    requires
        forall|i: int, j: int|
            0 <= i < j < rows.len() ==> before(
                #[trigger] text_at(rows[i], 5),
                #[trigger] text_at(rows[j], 5),
            ),
    ensures
        approvals_of_rows(rows).len() == rows.len(),
        forall|i: int, j: int|
            0 <= i < j < rows.len() ==> before(
                (#[trigger] approvals_of_rows(rows)[i]).created_at,
                (#[trigger] approvals_of_rows(rows)[j]).created_at,
            ),
{
    assert forall|i: int, j: int| 0 <= i < j < rows.len() implies before(
        (#[trigger] approvals_of_rows(rows)[i]).created_at,
        (#[trigger] approvals_of_rows(rows)[j]).created_at,
    ) by {
        assert(before(text_at(rows[i], 5), text_at(rows[j], 5)));
    }
}

} // verus!
