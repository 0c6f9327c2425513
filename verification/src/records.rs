//! The records that the store keeps.

use vstd::prelude::*;

verus! {

/// A named automation configuration. The store keeps it as written and
/// interprets none of its fields.
#[derive(Debug, Clone, PartialEq, Eq)]
pub struct Agent {
    pub id: String,
    pub name: String,
    pub role: String,
    pub goal: String,
    pub tools: String,
    pub schedule: String,
    pub config_json: String,
    pub sandbox: bool,
    pub created_at: String,
}

/// The mathematical value of an [`Agent`].
pub struct AgentView {
    pub id: Seq<char>,
    pub name: Seq<char>,
    pub role: Seq<char>,
    pub goal: Seq<char>,
    pub tools: Seq<char>,
    pub schedule: Seq<char>,
    pub config_json: Seq<char>,
    pub sandbox: bool,
    pub created_at: Seq<char>,
}

impl View for Agent {
    type V = AgentView;

    open spec fn view(&self) -> AgentView {
        AgentView {
            id: self.id@,
            name: self.name@,
            role: self.role@,
            goal: self.goal@,
            tools: self.tools@,
            schedule: self.schedule@,
            config_json: self.config_json@,
            sandbox: self.sandbox,
            created_at: self.created_at@,
        }
    }
}

impl DeepView for Agent {
    type V = AgentView;

    open spec fn deep_view(&self) -> AgentView {
        self@
    }
}

/// The outcome of one past action of an agent. Logs are only ever added.
#[derive(Debug, Clone, PartialEq, Eq)]
pub struct ExecutionLog {
    pub id: i64,
    pub agent_id: String,
    pub action: String,
    pub status: String,
    pub output: String,
    pub error: String,
    pub created_at: String,
}

/// The mathematical value of an [`ExecutionLog`].
pub struct ExecutionLogView {
    pub id: i64,
    pub agent_id: Seq<char>,
    pub action: Seq<char>,
    pub status: Seq<char>,
    pub output: Seq<char>,
    pub error: Seq<char>,
    pub created_at: Seq<char>,
}

impl View for ExecutionLog {
    type V = ExecutionLogView;

    open spec fn view(&self) -> ExecutionLogView {
        ExecutionLogView {
            id: self.id,
            agent_id: self.agent_id@,
            action: self.action@,
            status: self.status@,
            output: self.output@,
            error: self.error@,
            created_at: self.created_at@,
        }
    }
}

impl DeepView for ExecutionLog {
    type V = ExecutionLogView;

    open spec fn deep_view(&self) -> ExecutionLogView {
        self@
    }
}

/// An action that waits for a person to sign it off.
#[derive(Debug, Clone, PartialEq, Eq)]
pub struct ApprovalItem {
    pub id: String,
    pub agent_id: String,
    pub action_type: String,
    pub content_preview: String,
    pub status: String,
    pub created_at: String,
}

/// The mathematical value of an [`ApprovalItem`].
pub struct ApprovalItemView {
    pub id: Seq<char>,
    pub agent_id: Seq<char>,
    pub action_type: Seq<char>,
    pub content_preview: Seq<char>,
    pub status: Seq<char>,
    pub created_at: Seq<char>,
}

impl View for ApprovalItem {
    type V = ApprovalItemView;

    open spec fn view(&self) -> ApprovalItemView {
        ApprovalItemView {
            id: self.id@,
            agent_id: self.agent_id@,
            action_type: self.action_type@,
            content_preview: self.content_preview@,
            status: self.status@,
            created_at: self.created_at@,
        }
    }
}

impl DeepView for ApprovalItem {
    type V = ApprovalItemView;

    open spec fn deep_view(&self) -> ApprovalItemView {
        self@
    }
}

/// One key with its value.
#[derive(Debug, Clone, PartialEq, Eq)]
pub struct Setting {
    pub key: String,
    pub value: String,
}

/// The mathematical value of a [`Setting`].
pub struct SettingView {
    pub key: Seq<char>,
    pub value: Seq<char>,
}

impl View for Setting {
    type V = SettingView;

    open spec fn view(&self) -> SettingView {
        SettingView { key: self.key@, value: self.value@ }
    }
}

} // verus!
