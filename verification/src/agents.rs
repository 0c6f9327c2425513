//! Agents: creating, listing and deleting them.

use vstd::prelude::*;
use crate::errors::{RowError, StoreError};
use crate::fresh::{current_timestamp, fresh_id, is_random_id};
use crate::layout::{
    check_rows, column_faults, integer_at, integer_of, lemma_no_fault, row_fault,
    rows_fault, text_at, text_of, Kind,
};
use crate::outcome::{execute, query, written};
use crate::records::{Agent, AgentView};
use crate::state::{acquire, guarded, DbState};
use crate::snapshot::{config_snapshot, json_object_text, snapshot_members};
use crate::values::{stored_row, text_param, Cell, CellView, Param, ParamView, Statement, StatementView};

verus! {

/// Adds one agent; the placeholders stand for the columns in the order in
/// which they are named.
pub const INSERT_AGENT_SQL: &'static str =
    "INSERT INTO agents (id, name, role, goal, tools, schedule, config_json, sandbox, created_at) VALUES (?1, ?2, ?3, ?4, ?5, ?6, ?7, ?8, ?9)";

/// Reads every agent, the newest first.
pub const LIST_AGENTS_SQL: &'static str =
    "SELECT id, name, role, goal, tools, schedule, config_json, sandbox, created_at FROM agents ORDER BY created_at DESC";

/// Removes the agent with the bound identifier, if there is one.
pub const DELETE_AGENT_SQL: &'static str = "DELETE FROM agents WHERE id = ?1";

/// The columns of an agent's row: seven texts, the sandbox flag as a small
/// integer, and the creation time.
pub open spec fn agent_layout() -> Seq<Kind> {
    seq![
        Kind::Text,
        Kind::Text,
        Kind::Text,
        Kind::Text,
        Kind::Text,
        Kind::Text,
        Kind::Text,
        Kind::SmallInteger,
        Kind::Text,
    ]
}

/// The agent that a row stands for. The sandbox is on where the flag is
/// not zero.
pub open spec fn agent_of_row(row: Seq<CellView>) -> AgentView {
    AgentView {
        id: text_at(row, 0),
        name: text_at(row, 1),
        role: text_at(row, 2),
        goal: text_at(row, 3),
        tools: text_at(row, 4),
        schedule: text_at(row, 5),
        config_json: text_at(row, 6),
        sandbox: integer_at(row, 7) != 0,
        created_at: text_at(row, 8),
    }
}

/// The agents that a sequence of rows stands for, in the order of the rows.
pub open spec fn agents_of_rows(rows: Seq<Seq<CellView>>) -> Seq<AgentView> {
    Seq::new(rows.len(), |k: int| agent_of_row(rows[k]))
}

/// The values that are bound when an agent is added: its fields in the
/// order of the columns, the sandbox flag as 1 or 0.
pub open spec fn agent_params(agent: AgentView) -> Seq<ParamView> {
    seq![
        ParamView::Text(agent.id),
        ParamView::Text(agent.name),
        ParamView::Text(agent.role),
        ParamView::Text(agent.goal),
        ParamView::Text(agent.tools),
        ParamView::Text(agent.schedule),
        ParamView::Text(agent.config_json),
        ParamView::Integer(if agent.sandbox { 1i64 } else { 0i64 }),
        ParamView::Text(agent.created_at),
    ]
}

/// The record of a new agent: the given fields, with their snapshot.
pub fn agent_record(
    id: String,
    created_at: String,
    name: String,
    role: String,
    goal: String,
    tools: String,
    schedule: String,
    sandbox: bool,
) -> (agent: Agent)
    ensures
        agent@ == (AgentView {
            id: id@,
            name: name@,
            role: role@,
            goal: goal@,
            tools: tools@,
            schedule: schedule@,
            config_json: json_object_text(
                snapshot_members(name@, role@, goal@, tools@, schedule@, sandbox),
            ),
            sandbox,
            created_at: created_at@,
        }),
{
    let config_json = config_snapshot(&name, &role, &goal, &tools, &schedule, sandbox);
    Agent { id, name, role, goal, tools, schedule, config_json, sandbox, created_at }
}

/// The statement that adds `agent`.
pub fn insert_agent_statement(agent: &Agent) -> (statement: Statement)
    ensures
        statement@ == (StatementView { sql: INSERT_AGENT_SQL@, params: agent_params(agent@) }),
{
    let mut params: Vec<Param> = Vec::new();
    params.push(text_param(&agent.id));
    params.push(text_param(&agent.name));
    params.push(text_param(&agent.role));
    params.push(text_param(&agent.goal));
    params.push(text_param(&agent.tools));
    params.push(text_param(&agent.schedule));
    params.push(text_param(&agent.config_json));
    params.push(Param::Integer(if agent.sandbox { 1 } else { 0 }));
    params.push(text_param(&agent.created_at));
    assert(params.deep_view() =~= agent_params(agent@));
    Statement { sql: INSERT_AGENT_SQL, params }
}

/// The statement that reads every agent.
pub fn list_agents_statement() -> (statement: Statement)
    ensures
        statement@ == (StatementView { sql: LIST_AGENTS_SQL@, params: Seq::empty() }),
{
    let params: Vec<Param> = Vec::new();
    assert(params.deep_view() =~= Seq::<ParamView>::empty());
    Statement { sql: LIST_AGENTS_SQL, params }
}

/// The statement that removes the agent with the given identifier.
pub fn delete_agent_statement(id: String) -> (statement: Statement)
    ensures
        statement@ == (StatementView { sql: DELETE_AGENT_SQL@, params: seq![ParamView::Text(id@)] }),
{
    let mut params: Vec<Param> = Vec::new();
    params.push(Param::Text(id));
    assert(params.deep_view() =~= seq![ParamView::Text(id@)]);
    Statement { sql: DELETE_AGENT_SQL, params }
}

fn agent_columns() -> (layout: Vec<Kind>)
    ensures
        layout@ == agent_layout(),
{
    let layout = vec![
        Kind::Text,
        Kind::Text,
        Kind::Text,
        Kind::Text,
        Kind::Text,
        Kind::Text,
        Kind::Text,
        Kind::SmallInteger,
        Kind::Text,
    ];
    assert(layout@ =~= agent_layout());
    layout
}

fn agent_from_row(row: &Vec<Cell>) -> (agent: Agent)
    ensures
        agent@ == agent_of_row(row.deep_view()),
{
    Agent {
        id: text_of(row, 0),
        name: text_of(row, 1),
        role: text_of(row, 2),
        goal: text_of(row, 3),
        tools: text_of(row, 4),
        schedule: text_of(row, 5),
        config_json: text_of(row, 6),
        sandbox: integer_of(row, 7) != 0,
        created_at: text_of(row, 8),
    }
}

/// Reads rows as agents. Every row must have the columns of an agent; the
/// first fault of the first row that has not is the error. The agents come
/// in the order of the rows.
pub fn agents_from_rows(rows: &Vec<Vec<Cell>>) -> (res: Result<Vec<Agent>, RowError>)
    ensures
        match rows_fault(rows.deep_view(), agent_layout()) {
            Some(fault) => res == Err::<Vec<Agent>, RowError>(fault),
            None => res matches Ok(agents) && agents.deep_view() == agents_of_rows(
                rows.deep_view(),
            ),
        },
{
    let layout = agent_columns();
    match check_rows(rows, &layout) {
        Err(fault) => {
            return Err(fault);
        },
        Ok(()) => {},
    }
    let mut agents: Vec<Agent> = Vec::new();
    let mut k: usize = 0;
    while k < rows.len()
        invariant
            k <= rows.len(),
            agents.len() == k,
            forall|j: int| 0 <= j < k ==> (#[trigger] agents[j])@ == agent_of_row(rows.deep_view()[j]),
        decreases rows.len() - k,
    {
        assert(rows.deep_view()[k as int] == rows[k as int].deep_view());
        agents.push(agent_from_row(&rows[k]));
        k += 1;
    }
    assert(agents.deep_view() =~= agents_of_rows(rows.deep_view()));
    Ok(agents)
}

/// What listing may return for an answer of the database.
pub open spec fn is_agents_answer(
    outcome: Result<Vec<Vec<Cell>>, String>,
    res: Result<Vec<Agent>, StoreError>,
) -> bool {
    match outcome {
        Err(description) => res == Err::<Vec<Agent>, StoreError>(StoreError::Database(description)),
        Ok(rows) => match rows_fault(rows.deep_view(), agent_layout()) {
            Some(fault) => res == Err::<Vec<Agent>, StoreError>(StoreError::Row(fault)),
            None => res matches Ok(agents) && agents.deep_view() == agents_of_rows(
                rows.deep_view(),
            ),
        },
    }
}

/// What listing returns for an answer of the database: its failure, the
/// fault of a row that is no agent, or the agents in the order of the rows.
pub fn agents_answer(outcome: Result<Vec<Vec<Cell>>, String>) -> (res: Result<
    Vec<Agent>,
    StoreError,
>)
    ensures
        is_agents_answer(outcome, res),
{
    match outcome {
        Err(description) => Err(StoreError::Database(description)),
        Ok(rows) => match agents_from_rows(&rows) {
            Ok(agents) => Ok(agents),
            Err(fault) => Err(StoreError::Row(fault)),
        },
    }
}

/// Creates an agent with a fresh identifier and the current time, and adds
/// it to the database. Names need not be unique. The record is returned
/// where the database took it.
pub fn create_agent(
    db: &DbState,
    name: String,
    role: String,
    goal: String,
    tools: String,
    schedule: String,
    sandbox: bool,
) -> (res: Result<Agent, StoreError>)
    ensures
        match res {
            Ok(agent) => {
                &&& is_random_id(agent.id@)
                &&& agent.name@ == name@
                &&& agent.role@ == role@
                &&& agent.goal@ == goal@
                &&& agent.tools@ == tools@
                &&& agent.schedule@ == schedule@
                &&& agent.config_json@ == json_object_text(
                    snapshot_members(name@, role@, goal@, tools@, schedule@, sandbox),
                )
                &&& agent.sandbox == sandbox
            },
            Err(failure) => failure is Lock || failure is Database,
        },
{
    let guard = acquire(db)?;
    let id = fresh_id();
    let now = current_timestamp();
    let agent = agent_record(id, now, name, role, goal, tools, schedule, sandbox);
    let statement = insert_agent_statement(&agent);
    let outcome = execute(guarded(&guard), &statement);
    written(outcome, agent)
}

/// Lists every agent, the newest first as the database orders them. An
/// empty table gives an empty list.
pub fn list_agents(db: &DbState) -> (res: Result<Vec<Agent>, StoreError>)
    ensures
        res matches Err(StoreError::Lock(_)) || exists|outcome: Result<Vec<Vec<Cell>>, String>|
            is_agents_answer(outcome, res),
{
    let guard = acquire(db)?;
    let statement = list_agents_statement();
    let outcome = query(guarded(&guard), &statement);
    let ghost answered = outcome;
    let res = agents_answer(outcome);
    assert(is_agents_answer(answered, res));
    res
}

/// Removes the agent with the given identifier. Where there is none, the
/// database changes nothing and the call succeeds all the same.
pub fn delete_agent(db: &DbState, id: String) -> (res: Result<(), StoreError>)
    ensures
        res matches Err(failure) ==> failure is Lock || failure is Database,
{
    let guard = acquire(db)?;
    let statement = delete_agent_statement(id);
    let outcome = execute(guarded(&guard), &statement);
    written(outcome, ())
}

/// The rows that the database holds of agents that were added with the
/// values that [`insert_agent_statement`] binds, when it stores them
/// unchanged.
pub open spec fn agent_rows(agents: Seq<AgentView>) -> Seq<Seq<CellView>> {
    Seq::new(agents.len(), |k: int| stored_row(agent_params(agents[k])))
}

/// Agents that are read back as they were bound are the agents that were
/// added: their rows have the columns of an agent, and listing them gives
/// the same agents, field for field and in the order of the rows. One added
/// agent comes back as a list of that one agent.
pub proof fn lemma_agents_round_trip(agents: Seq<AgentView>)
    ensures
        rows_fault(agent_rows(agents), agent_layout()) is None,
        agents_of_rows(agent_rows(agents)) == agents,
{
    let rows = agent_rows(agents);
    let faults = Seq::new(rows.len(), |k: int| row_fault(rows[k], agent_layout()));
    assert forall|k: int| 0 <= k < faults.len() implies faults[k] is None by {
        lemma_no_fault(column_faults(rows[k], agent_layout()));
    }
    lemma_no_fault(faults);
    assert(agents_of_rows(rows) =~= agents);
}

/// Listing keeps the order of the rows: a relation that holds between the
/// creation times of every earlier and every later row holds between the
/// creation times of every earlier and every later agent.
pub proof fn lemma_agents_keep_order(
    rows: Seq<Seq<CellView>>,
    before: spec_fn(Seq<char>, Seq<char>) -> bool,
)
    requires
        forall|i: int, j: int|
            0 <= i < j < rows.len() ==> before(
                #[trigger] text_at(rows[i], 8),
                #[trigger] text_at(rows[j], 8),
            ),
    ensures
        agents_of_rows(rows).len() == rows.len(),
        forall|i: int, j: int|
            0 <= i < j < rows.len() ==> before(
                (#[trigger] agents_of_rows(rows)[i]).created_at,
                (#[trigger] agents_of_rows(rows)[j]).created_at,
            ),
{
    assert forall|i: int, j: int| 0 <= i < j < rows.len() implies before(
        (#[trigger] agents_of_rows(rows)[i]).created_at,
        (#[trigger] agents_of_rows(rows)[j]).created_at,
    ) by {
        assert(before(text_at(rows[i], 8), text_at(rows[j], 8)));
    }
}

} // verus!
