use openclaw_store::agents::{
    agent_record, agents_answer, agents_from_rows, delete_agent_statement, insert_agent_statement,
    list_agents_statement, DELETE_AGENT_SQL, INSERT_AGENT_SQL, LIST_AGENTS_SQL,
};
use openclaw_store::approvals::{
    add_approval_statement, approval_record, approvals_answer, approvals_from_rows,
    get_approvals_statement, update_approval_statement, ADD_APPROVAL_SQL, GET_APPROVALS_SQL,
    UPDATE_APPROVAL_SQL,
};
use openclaw_store::layout::{check_column, check_row, check_rows, integer_of, text_of, Kind};
use openclaw_store::logs::{
    add_log_statement, get_logs_statement, logs_answer, logs_from_rows, ADD_LOG_SQL,
    DEFAULT_LOG_LIMIT, GET_LOGS_SQL,
};
use openclaw_store::outcome::{described, written};
use openclaw_store::settings::{
    delete_setting_statement, get_setting_statement, set_setting_statement, setting_answer,
    DELETE_SETTING_SQL, GET_SETTING_SQL, SET_SETTING_SQL,
};
use openclaw_store::snapshot::{config_snapshot, snapshot_of, text_member, Member, Scalar};
use openclaw_store::state::{acquire, lock_answer};
use openclaw_store::values::text_param;
use openclaw_store::{
    Agent, ApprovalItem, Cell, DbState, ExecutionLog, Param, RowError, Setting, Statement,
    StoreError,
};
use rusqlite::Connection;
use std::sync::{Mutex, MutexGuard};

fn text(s: &str) -> Cell {
    Cell::Text(s.to_string())
}

fn agent_row(id: &str, sandbox: i64) -> Vec<Cell> {
    vec![
        text(id),
        text("name"),
        text("role"),
        text("goal"),
        text("tools"),
        text("schedule"),
        text("{}"),
        Cell::Integer(sandbox),
        text("2024-01-01T00:00:00+00:00"),
    ]
}

fn agent(id: &str, sandbox: bool) -> Agent {
    Agent {
        id: id.to_string(),
        name: "name".to_string(),
        role: "role".to_string(),
        goal: "goal".to_string(),
        tools: "tools".to_string(),
        schedule: "schedule".to_string(),
        config_json: "{}".to_string(),
        sandbox,
        created_at: "2024-01-01T00:00:00+00:00".to_string(),
    }
}

#[test]
fn rows_become_agents_in_their_order() {
    let rows = vec![agent_row("b", 0), agent_row("a", 1), agent_row("c", -5)];
    assert_eq!(
        agents_from_rows(&rows),
        Ok(vec![agent("b", false), agent("a", true), agent("c", true)])
    );
    assert_eq!(agents_from_rows(&vec![]), Ok(vec![]));
}

#[test]
fn the_smallest_and_largest_flags_are_read() {
    let rows = vec![agent_row("lo", -2147483648), agent_row("hi", 2147483647)];
    assert_eq!(agents_from_rows(&rows), Ok(vec![agent("lo", true), agent("hi", true)]));
    assert_eq!(
        agents_from_rows(&vec![agent_row("x", 2147483648)]),
        Err(RowError::OutOfRange(7, 2147483648))
    );
    assert_eq!(
        agents_from_rows(&vec![agent_row("x", -2147483649)]),
        Err(RowError::OutOfRange(7, -2147483649))
    );
}

#[test]
fn the_first_fault_of_the_first_faulty_row_is_reported() {
    let mut second = agent_row("second", 0);
    second[3] = Cell::Null;
    second[5] = Cell::Integer(1);
    let mut third = agent_row("third", 0);
    third[0] = Cell::Blob;
    let rows = vec![agent_row("first", 0), second, third];
    assert_eq!(agents_from_rows(&rows), Err(RowError::WrongType(3)));
}

#[test]
fn a_short_row_misses_a_column() {
    let mut row = agent_row("short", 0);
    row.truncate(8);
    assert_eq!(agents_from_rows(&vec![row]), Err(RowError::MissingColumn(8)));
    assert_eq!(agents_from_rows(&vec![vec![]]), Err(RowError::MissingColumn(0)));
}

#[test]
fn columns_beyond_the_record_are_ignored() {
    let mut row = agent_row("wide", 0);
    row.push(Cell::Real);
    assert_eq!(agents_from_rows(&vec![row]), Ok(vec![agent("wide", false)]));
}

#[test]
fn a_flag_that_is_text_has_the_wrong_type() {
    let mut row = agent_row("x", 0);
    row[7] = text("1");
    assert_eq!(agents_from_rows(&vec![row]), Err(RowError::WrongType(7)));
    let mut row = agent_row("x", 0);
    row[7] = Cell::Real;
    assert_eq!(agents_from_rows(&vec![row]), Err(RowError::WrongType(7)));
}

#[test]
fn check_column_tells_the_faults_apart() {
    let row = vec![text("t"), Cell::Integer(5_000_000_000), Cell::Null];
    assert_eq!(check_column(&row, Kind::Text, 0), None);
    assert_eq!(check_column(&row, Kind::Integer, 0), Some(RowError::WrongType(0)));
    assert_eq!(check_column(&row, Kind::SmallInteger, 0), Some(RowError::WrongType(0)));
    assert_eq!(check_column(&row, Kind::Integer, 1), None);
    assert_eq!(
        check_column(&row, Kind::SmallInteger, 1),
        Some(RowError::OutOfRange(1, 5_000_000_000))
    );
    assert_eq!(check_column(&row, Kind::Text, 1), Some(RowError::WrongType(1)));
    assert_eq!(check_column(&row, Kind::Text, 2), Some(RowError::WrongType(2)));
    assert_eq!(check_column(&row, Kind::Text, 3), Some(RowError::MissingColumn(3)));
}

#[test]
fn check_row_and_check_rows_report_the_leftmost_fault() {
    let layout = vec![Kind::Text, Kind::Integer];
    let good = vec![text("a"), Cell::Integer(1)];
    let bad = vec![Cell::Null, text("b")];
    assert_eq!(check_row(&good, &layout), Ok(()));
    assert_eq!(check_row(&bad, &layout), Err(RowError::WrongType(0)));
    assert_eq!(check_row(&vec![text("a")], &layout), Err(RowError::MissingColumn(1)));
    assert_eq!(check_row(&vec![], &vec![]), Ok(()));
    assert_eq!(check_rows(&vec![good.clone(), good.clone()], &layout), Ok(()));
    assert_eq!(
        check_rows(&vec![good.clone(), vec![text("a"), Cell::Blob], bad], &layout),
        Err(RowError::WrongType(1))
    );
    assert_eq!(check_rows(&vec![], &layout), Ok(()));
}

#[test]
fn cells_are_read_leniently_by_the_readers() {
    let row = vec![text("t"), Cell::Integer(-9)];
    assert_eq!(text_of(&row, 0), "t");
    assert_eq!(text_of(&row, 1), "");
    assert_eq!(text_of(&row, 2), "");
    assert_eq!(integer_of(&row, 1), -9);
    assert_eq!(integer_of(&row, 0), 0);
    assert_eq!(integer_of(&row, 7), 0);
}

#[test]
fn agents_answer_passes_the_failure_on() {
    assert_eq!(
        agents_answer(Err("disk I/O error".to_string())),
        Err(StoreError::Database("disk I/O error".to_string()))
    );
    assert_eq!(agents_answer(Ok(vec![])), Ok(vec![]));
    assert_eq!(agents_answer(Ok(vec![agent_row("a", 0)])), Ok(vec![agent("a", false)]));
    assert_eq!(
        agents_answer(Ok(vec![vec![text("a")]])),
        Err(StoreError::Row(RowError::MissingColumn(1)))
    );
}

fn log_row(id: i64, action: &str) -> Vec<Cell> {
    vec![
        Cell::Integer(id),
        text("agent"),
        text(action),
        text("ok"),
        text("out"),
        text("err"),
        text("2024-01-01T00:00:00+00:00"),
    ]
}

fn log(id: i64, action: &str) -> ExecutionLog {
    ExecutionLog {
        id,
        agent_id: "agent".to_string(),
        action: action.to_string(),
        status: "ok".to_string(),
        output: "out".to_string(),
        error: "err".to_string(),
        created_at: "2024-01-01T00:00:00+00:00".to_string(),
    }
}

#[test]
fn rows_become_logs_in_their_order() {
    let rows = vec![log_row(9_000_000_000, "late"), log_row(1, "early")];
    assert_eq!(logs_from_rows(&rows), Ok(vec![log(9_000_000_000, "late"), log(1, "early")]));
    assert_eq!(logs_answer(Ok(rows)), Ok(vec![log(9_000_000_000, "late"), log(1, "early")]));
}

#[test]
fn a_log_without_a_number_is_no_log() {
    let mut row = log_row(1, "x");
    row[0] = text("1");
    assert_eq!(logs_from_rows(&vec![row.clone()]), Err(RowError::WrongType(0)));
    assert_eq!(logs_answer(Ok(vec![row])), Err(StoreError::Row(RowError::WrongType(0))));
    assert_eq!(
        logs_answer(Err("locked".to_string())),
        Err(StoreError::Database("locked".to_string()))
    );
}

fn approval_row(id: &str, status: &str) -> Vec<Cell> {
    vec![text(id), text("agent"), text("post"), text("preview"), text(status), text("when")]
}

fn approval(id: &str, status: &str) -> ApprovalItem {
    ApprovalItem {
        id: id.to_string(),
        agent_id: "agent".to_string(),
        action_type: "post".to_string(),
        content_preview: "preview".to_string(),
        status: status.to_string(),
        created_at: "when".to_string(),
    }
}

#[test]
fn rows_become_approvals_with_whatever_status_they_hold() {
    let rows = vec![approval_row("1", "pending"), approval_row("2", "¯\\_(ツ)_/¯")];
    assert_eq!(
        approvals_from_rows(&rows),
        Ok(vec![approval("1", "pending"), approval("2", "¯\\_(ツ)_/¯")])
    );
    assert_eq!(approvals_answer(Ok(vec![])), Ok(vec![]));
}

#[test]
fn an_approval_with_a_null_status_is_no_approval() {
    let mut row = approval_row("1", "pending");
    row[4] = Cell::Null;
    assert_eq!(approvals_from_rows(&vec![row.clone()]), Err(RowError::WrongType(4)));
    assert_eq!(approvals_answer(Ok(vec![row])), Err(StoreError::Row(RowError::WrongType(4))));
    assert_eq!(
        approvals_answer(Err("busy".to_string())),
        Err(StoreError::Database("busy".to_string()))
    );
}

#[test]
fn setting_answer_takes_the_first_row_or_none() {
    assert_eq!(setting_answer(Ok(vec![])), Ok(None));
    assert_eq!(setting_answer(Ok(vec![vec![text("dark")]])), Ok(Some("dark".to_string())));
    assert_eq!(
        setting_answer(Ok(vec![vec![text("first")], vec![Cell::Null]])),
        Ok(Some("first".to_string()))
    );
    assert_eq!(
        setting_answer(Ok(vec![vec![Cell::Integer(1)]])),
        Err(StoreError::Row(RowError::WrongType(0)))
    );
    assert_eq!(
        setting_answer(Ok(vec![vec![]])),
        Err(StoreError::Row(RowError::MissingColumn(0)))
    );
    assert_eq!(
        setting_answer(Err("corrupt".to_string())),
        Err(StoreError::Database("corrupt".to_string()))
    );
}

#[test]
fn written_succeeds_whatever_the_number_of_rows() {
    assert_eq!(written(Ok(0usize), "kept"), Ok("kept"));
    assert_eq!(written(Ok(1usize), ()), Ok(()));
    assert_eq!(written(Ok(()), 5), Ok(5));
    assert_eq!(
        written(Err::<usize, String>("constraint failed".to_string()), ()),
        Err(StoreError::Database("constraint failed".to_string()))
    );
}

#[test]
fn described_keeps_the_value_and_words_the_error() {
    assert_eq!(described(Ok(3)), Ok(3));
    assert_eq!(
        described::<usize>(Err(rusqlite::Error::QueryReturnedNoRows)),
        Err("Query returned no rows".to_string())
    );
}

#[test]
fn messages_name_the_failure() {
    assert_eq!(StoreError::Database("no such table: agents".to_string()).message(), "no such table: agents");
    assert_eq!(StoreError::Lock("poisoned lock".to_string()).message(), "poisoned lock");
    assert_eq!(StoreError::Row(RowError::MissingColumn(9)).message(), "Invalid column index");
    assert_eq!(StoreError::Row(RowError::WrongType(2)).message(), "Invalid column type");
    assert_eq!(StoreError::Row(RowError::OutOfRange(7, 1 << 40)).message(), "Integer out of range");
}

#[test]
fn agent_record_copies_the_fields_and_adds_the_snapshot() {
    let record = agent_record(
        "id-1".to_string(),
        "2024-01-01T00:00:00+00:00".to_string(),
        "Bot1".to_string(),
        "writer".to_string(),
        "summarize docs".to_string(),
        "[]".to_string(),
        String::new(),
        false,
    );
    assert_eq!(
        record,
        Agent {
            id: "id-1".to_string(),
            name: "Bot1".to_string(),
            role: "writer".to_string(),
            goal: "summarize docs".to_string(),
            tools: "[]".to_string(),
            schedule: String::new(),
            config_json: "{\"goal\":\"summarize docs\",\"name\":\"Bot1\",\"role\":\"writer\",\"sandbox\":false,\"schedule\":\"\",\"tools\":\"[]\"}".to_string(),
            sandbox: false,
            created_at: "2024-01-01T00:00:00+00:00".to_string(),
        }
    );
}

#[test]
fn snapshot_lists_the_six_fields_under_their_names() {
    let name = "n".to_string();
    let role = "r".to_string();
    let goal = "g".to_string();
    let tools = "t".to_string();
    let schedule = "s".to_string();
    let members = snapshot_of(&name, &role, &goal, &tools, &schedule, true);
    assert_eq!(
        members,
        vec![
            Member { key: "name".to_string(), value: Scalar::Text("n".to_string()) },
            Member { key: "role".to_string(), value: Scalar::Text("r".to_string()) },
            Member { key: "goal".to_string(), value: Scalar::Text("g".to_string()) },
            Member { key: "tools".to_string(), value: Scalar::Text("t".to_string()) },
            Member { key: "schedule".to_string(), value: Scalar::Text("s".to_string()) },
            Member { key: "sandbox".to_string(), value: Scalar::Flag(true) },
        ]
    );
    assert_eq!(
        text_member("k", &name),
        Member { key: "k".to_string(), value: Scalar::Text("n".to_string()) }
    );
}

#[test]
fn snapshot_text_agrees_with_serde_json() {
    let name = "Ünï \"quoted\" \u{1}".to_string();
    let role = "r\\".to_string();
    let goal = "line\nbreak\ttab".to_string();
    let tools = "[\"a\",\"b\"]".to_string();
    let schedule = "*/5 * * * *".to_string();
    let text = config_snapshot(&name, &role, &goal, &tools, &schedule, true);
    let mut object = serde_json::Map::new();
    object.insert("name".to_string(), serde_json::Value::String(name.clone()));
    object.insert("role".to_string(), serde_json::Value::String(role.clone()));
    object.insert("goal".to_string(), serde_json::Value::String(goal.clone()));
    object.insert("tools".to_string(), serde_json::Value::String(tools.clone()));
    object.insert("schedule".to_string(), serde_json::Value::String(schedule.clone()));
    object.insert("sandbox".to_string(), serde_json::Value::Bool(true));
    let expected = serde_json::Value::Object(object);
    assert_eq!(text, expected.to_string());
    assert_eq!(serde_json::from_str::<serde_json::Value>(&text).expect("json"), expected);
    assert_ne!(text, name);
}

#[test]
fn insert_statement_binds_the_fields_in_column_order() {
    let mut record = agent("id", true);
    record.config_json = "{\"k\":1}".to_string();
    let statement = insert_agent_statement(&record);
    assert_eq!(statement.sql, INSERT_AGENT_SQL);
    assert_eq!(
        statement.params,
        vec![
            Param::Text("id".to_string()),
            Param::Text("name".to_string()),
            Param::Text("role".to_string()),
            Param::Text("goal".to_string()),
            Param::Text("tools".to_string()),
            Param::Text("schedule".to_string()),
            Param::Text("{\"k\":1}".to_string()),
            Param::Integer(1),
            Param::Text("2024-01-01T00:00:00+00:00".to_string()),
        ]
    );
    assert_eq!(insert_agent_statement(&agent("id", false)).params[7], Param::Integer(0));
}

#[test]
fn agent_statements_have_their_text() {
    assert_eq!(
        INSERT_AGENT_SQL,
        "INSERT INTO agents (id, name, role, goal, tools, schedule, config_json, sandbox, created_at) VALUES (?1, ?2, ?3, ?4, ?5, ?6, ?7, ?8, ?9)"
    );
    assert_eq!(
        list_agents_statement(),
        Statement {
            sql: "SELECT id, name, role, goal, tools, schedule, config_json, sandbox, created_at FROM agents ORDER BY created_at DESC",
            params: vec![],
        }
    );
    assert_eq!(list_agents_statement().sql, LIST_AGENTS_SQL);
    assert_eq!(
        delete_agent_statement("gone".to_string()),
        Statement {
            sql: "DELETE FROM agents WHERE id = ?1",
            params: vec![Param::Text("gone".to_string())],
        }
    );
    assert_eq!(delete_agent_statement(String::new()).sql, DELETE_AGENT_SQL);
}

#[test]
fn log_statements_bind_the_fields_and_the_limit() {
    assert_eq!(
        add_log_statement(
            "agent".to_string(),
            "run".to_string(),
            "ok".to_string(),
            "out".to_string(),
            "err".to_string(),
            "now".to_string(),
        ),
        Statement {
            sql: "INSERT INTO execution_logs (agent_id, action, status, output, error, created_at) VALUES (?1, ?2, ?3, ?4, ?5, ?6)",
            params: vec![
                Param::Text("agent".to_string()),
                Param::Text("run".to_string()),
                Param::Text("ok".to_string()),
                Param::Text("out".to_string()),
                Param::Text("err".to_string()),
                Param::Text("now".to_string()),
            ],
        }
    );
    assert_eq!(
        get_logs_statement(Some(7)),
        Statement {
            sql: "SELECT id, agent_id, action, status, output, error, created_at FROM execution_logs ORDER BY created_at DESC LIMIT ?1",
            params: vec![Param::Integer(7)],
        }
    );
    assert_eq!(DEFAULT_LOG_LIMIT, 100);
    assert_eq!(get_logs_statement(None).params, vec![Param::Integer(100)]);
    assert_eq!(get_logs_statement(Some(i64::MIN)).params, vec![Param::Integer(i64::MIN)]);
    assert_eq!(get_logs_statement(None).sql, GET_LOGS_SQL);
    assert_eq!(
        add_log_statement(
            String::new(),
            String::new(),
            String::new(),
            String::new(),
            String::new(),
            String::new()
        )
        .sql,
        ADD_LOG_SQL
    );
}

#[test]
fn setting_statements_bind_key_and_value() {
    assert_eq!(
        get_setting_statement("k".to_string()),
        Statement {
            sql: "SELECT value FROM settings WHERE key = ?1",
            params: vec![Param::Text("k".to_string())],
        }
    );
    assert_eq!(
        set_setting_statement("k".to_string(), "v".to_string()),
        Statement {
            sql: "INSERT OR REPLACE INTO settings (key, value) VALUES (?1, ?2)",
            params: vec![Param::Text("k".to_string()), Param::Text("v".to_string())],
        }
    );
    assert_eq!(
        delete_setting_statement("k".to_string()),
        Statement {
            sql: "DELETE FROM settings WHERE key = ?1",
            params: vec![Param::Text("k".to_string())],
        }
    );
    assert_eq!(GET_SETTING_SQL, get_setting_statement(String::new()).sql);
    assert_eq!(SET_SETTING_SQL, set_setting_statement(String::new(), String::new()).sql);
    assert_eq!(DELETE_SETTING_SQL, delete_setting_statement(String::new()).sql);
}

#[test]
fn approval_statements_bind_their_values() {
    let item = approval_record(
        "id".to_string(),
        "now".to_string(),
        "agent".to_string(),
        "post".to_string(),
        "preview".to_string(),
    );
    assert_eq!(
        item,
        ApprovalItem {
            id: "id".to_string(),
            agent_id: "agent".to_string(),
            action_type: "post".to_string(),
            content_preview: "preview".to_string(),
            status: "pending".to_string(),
            created_at: "now".to_string(),
        }
    );
    assert_eq!(
        add_approval_statement(&item),
        Statement {
            sql: "INSERT INTO approval_queue (id, agent_id, action_type, content_preview, status, created_at) VALUES (?1, ?2, ?3, ?4, 'pending', ?5)",
            params: vec![
                Param::Text("id".to_string()),
                Param::Text("agent".to_string()),
                Param::Text("post".to_string()),
                Param::Text("preview".to_string()),
                Param::Text("now".to_string()),
            ],
        }
    );
    assert_eq!(
        update_approval_statement("id".to_string(), "approved".to_string()),
        Statement {
            sql: "UPDATE approval_queue SET status = ?1 WHERE id = ?2",
            params: vec![Param::Text("approved".to_string()), Param::Text("id".to_string())],
        }
    );
    assert_eq!(
        get_approvals_statement(),
        Statement {
            sql: "SELECT id, agent_id, action_type, content_preview, status, created_at FROM approval_queue ORDER BY created_at DESC",
            params: vec![],
        }
    );
    assert_eq!(add_approval_statement(&item).sql, ADD_APPROVAL_SQL);
    assert_eq!(update_approval_statement(String::new(), String::new()).sql, UPDATE_APPROVAL_SQL);
    assert_eq!(get_approvals_statement().sql, GET_APPROVALS_SQL);
}

#[test]
fn text_param_copies_the_text() {
    let s = "copied".to_string();
    assert_eq!(text_param(&s), Param::Text("copied".to_string()));
}

#[test]
fn a_setting_is_a_key_with_its_value() {
    let setting = Setting { key: "theme".to_string(), value: "dark".to_string() };
    assert_eq!(setting.clone(), setting);
    assert_eq!(format!("{:?}", setting), "Setting { key: \"theme\", value: \"dark\" }");
}

#[test]
fn a_lock_that_cannot_be_had_is_a_lock_failure() {
    let failed: Result<MutexGuard<'_, Connection>, String> = Err("poisoned lock".to_string());
    match lock_answer(failed) {
        Err(StoreError::Lock(description)) => assert_eq!(description, "poisoned lock"),
        _ => panic!("a lock failure was expected"),
    }
}

#[test]
fn a_free_lock_is_had_and_guards_the_connection() {
    let db = DbState(Mutex::new(Connection::open_in_memory().expect("in-memory database")));
    {
        let guard = acquire(&db).expect("lock");
        let one: i64 = guard.query_row("SELECT 1", [], |row| row.get(0)).expect("query");
        assert_eq!(one, 1);
        assert!(db.0.try_lock().is_err());
        assert!(lock_answer(Ok(guard)).is_ok());
    }
    assert!(db.0.try_lock().is_ok());
}
