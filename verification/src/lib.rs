//! The persistence layer of a desktop application that manages agents, their
//! execution logs, an approval queue and key/value settings, all kept in one
//! SQLite database.

pub mod agents;
pub mod approvals;
pub mod database;
pub mod errors;
pub mod fresh;
pub mod layout;
pub mod logs;
pub mod outcome;
pub mod records;
pub mod schema;
pub mod settings;
pub mod snapshot;
pub mod state;
pub mod values;

pub use agents::{create_agent, delete_agent, list_agents};
pub use approvals::{add_approval, get_approvals, update_approval};
pub use errors::{RowError, StoreError};
pub use logs::{add_log, get_logs};
pub use records::{Agent, ApprovalItem, ExecutionLog, Setting};
pub use schema::init_db;
pub use settings::{delete_setting, get_setting, set_setting};
pub use state::DbState;
pub use values::{Cell, Param, Statement};
