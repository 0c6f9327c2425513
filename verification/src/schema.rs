//! The tables of the database.

use vstd::prelude::*;
use crate::database::run_batch;
use crate::errors::StoreError;
use crate::outcome::{described, written};

verus! {

/// Creates the five tables where they are missing, and leaves alone those
/// that are there. The table of schedules is kept for databases that have
/// it; no operation reads or writes it.
pub const SCHEMA_SQL: &'static str = "
        CREATE TABLE IF NOT EXISTS agents (
            id TEXT PRIMARY KEY,
            name TEXT NOT NULL,
            role TEXT DEFAULT '',
            goal TEXT DEFAULT '',
            tools TEXT DEFAULT '[]',
            schedule TEXT DEFAULT '',
            config_json TEXT DEFAULT '{}',
            sandbox INTEGER DEFAULT 0,
            created_at TEXT NOT NULL
        );
        CREATE TABLE IF NOT EXISTS execution_logs (
            id INTEGER PRIMARY KEY AUTOINCREMENT,
            agent_id TEXT DEFAULT '',
            action TEXT NOT NULL,
            status TEXT NOT NULL,
            output TEXT DEFAULT '',
            error TEXT DEFAULT '',
            created_at TEXT NOT NULL
        );
        CREATE TABLE IF NOT EXISTS settings (
            key TEXT PRIMARY KEY,
            value TEXT NOT NULL
        );
        CREATE TABLE IF NOT EXISTS approval_queue (
            id TEXT PRIMARY KEY,
            agent_id TEXT DEFAULT '',
            action_type TEXT NOT NULL,
            content_preview TEXT DEFAULT '',
            status TEXT DEFAULT 'pending',
            created_at TEXT NOT NULL
        );
        CREATE TABLE IF NOT EXISTS schedules (
            id TEXT PRIMARY KEY,
            agent_id TEXT DEFAULT '',
            cron_expr TEXT NOT NULL,
            description TEXT DEFAULT '',
            enabled INTEGER DEFAULT 1,
            last_run TEXT DEFAULT '',
            next_run TEXT DEFAULT ''
        );
    ";

/// Makes sure that the tables exist. It may run at every start: tables
/// that are there keep what they hold.
pub fn init_db(conn: &rusqlite::Connection) -> (res: Result<(), StoreError>)
    ensures
        res matches Err(failure) ==> failure is Database,
{
    written(described(run_batch(conn, SCHEMA_SQL)), ())
}

} // verus!
