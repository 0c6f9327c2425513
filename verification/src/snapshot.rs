//! The configuration snapshot of an agent: its fields once more, as one JSON
//! object in text form.

use vstd::prelude::*;

verus! {

/// The value of a member of a JSON object: the store writes strings and
/// booleans.
#[derive(Debug, Clone, PartialEq, Eq)]
pub enum Scalar {
    Text(String),
    Flag(bool),
}

/// The mathematical value of a [`Scalar`].
pub enum ScalarView {
    Text(Seq<char>),
    Flag(bool),
}

impl View for Scalar {
    type V = ScalarView;

    open spec fn view(&self) -> ScalarView {
        match self {
            Scalar::Text(s) => ScalarView::Text(s@),
            Scalar::Flag(b) => ScalarView::Flag(*b),
        }
    }
}

/// A member of a JSON object.
#[derive(Debug, Clone, PartialEq, Eq)]
pub struct Member {
    pub key: String,
    pub value: Scalar,
}

/// The mathematical value of a [`Member`].
pub struct MemberView {
    pub key: Seq<char>,
    pub value: ScalarView,
}

impl View for Member {
    type V = MemberView;

    open spec fn view(&self) -> MemberView {
        MemberView { key: self.key@, value: self.value@ }
    }
}

impl DeepView for Member {
    type V = MemberView;

    open spec fn deep_view(&self) -> MemberView {
        self@
    }
}

/// The text that serde_json writes for the object made by inserting the
/// given members, one after the other, into an empty object.
pub uninterp spec fn json_object_text(members: Seq<MemberView>) -> Seq<char>;

/// Builds a `serde_json::Map` by calling `insert` for each member in order,
/// and writes it as a `serde_json::Value` with `to_string`, which gives the
/// compact form. The text is a function of the members alone; it is named,
/// not described.
#[verifier::external_body]
pub(crate) fn object_text(members: &Vec<Member>) -> (text: String)
    ensures
        text@ == json_object_text(members.deep_view()),
{
    let mut object = serde_json::Map::new();
    for member in members.iter() {
        object.insert(member.key.clone(), match &member.value {
            Scalar::Text(s) => serde_json::Value::String(s.clone()),
            Scalar::Flag(b) => serde_json::Value::Bool(*b),
        });
    }
    serde_json::Value::Object(object).to_string()
}

/// The members of an agent's configuration snapshot.
pub open spec fn snapshot_members(
    name: Seq<char>,
    role: Seq<char>,
    goal: Seq<char>,
    tools: Seq<char>,
    schedule: Seq<char>,
    sandbox: bool,
) -> Seq<MemberView> {
    seq![
        MemberView { key: "name"@, value: ScalarView::Text(name) },
        MemberView { key: "role"@, value: ScalarView::Text(role) },
        MemberView { key: "goal"@, value: ScalarView::Text(goal) },
        MemberView { key: "tools"@, value: ScalarView::Text(tools) },
        MemberView { key: "schedule"@, value: ScalarView::Text(schedule) },
        MemberView { key: "sandbox"@, value: ScalarView::Flag(sandbox) },
    ]
}

/// A member whose value is a copy of `text`.
pub fn text_member(key: &str, text: &String) -> (member: Member)
    ensures
        member@ == (MemberView { key: key@, value: ScalarView::Text(text@) }),
{
    Member { key: key.to_owned(), value: Scalar::Text(text.clone()) }
}

/// The members of the configuration snapshot of an agent with the given
/// fields: each field under its own name, the texts as strings and the
/// sandbox flag as a boolean.
pub fn snapshot_of(
    name: &String,
    role: &String,
    goal: &String,
    tools: &String,
    schedule: &String,
    sandbox: bool,
) -> (members: Vec<Member>)
    ensures
        members.deep_view() == snapshot_members(name@, role@, goal@, tools@, schedule@, sandbox),
{
    let mut members: Vec<Member> = Vec::new();
    members.push(text_member("name", name));
    members.push(text_member("role", role));
    members.push(text_member("goal", goal));
    members.push(text_member("tools", tools));
    members.push(text_member("schedule", schedule));
    members.push(Member { key: "sandbox".to_owned(), value: Scalar::Flag(sandbox) });
    assert(members.deep_view() =~= snapshot_members(
        name@,
        role@,
        goal@,
        tools@,
        schedule@,
        sandbox,
    ));
    members
}

/// The configuration snapshot of an agent with the given fields, as JSON
/// text.
pub fn config_snapshot(
    name: &String,
    role: &String,
    goal: &String,
    tools: &String,
    schedule: &String,
    sandbox: bool,
) -> (text: String)
    ensures
        text@ == json_object_text(
            snapshot_members(name@, role@, goal@, tools@, schedule@, sandbox),
        ),
{
    let members = snapshot_of(name, role, goal, tools, schedule, sandbox);
    object_text(&members)
}

} // verus!
