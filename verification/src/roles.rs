//! Closed Role catalogue — prompt plus tool set per Task.
//!
//! A Role is a property of work, not a kind of agent. Every Worker runs the
//! same loop; only its Task's Role changes the system prompt and the tools
//! offered. The snake_case name is the single string form of each.
//!
//! | Role | tools |
//! | --- | --- |
//! | Research | create_task, create_research_task, await_result, web_search, web_fetch |
//! | Planning | create_task, create_task_full, await_result, message_human |
//! | Memory | create_task, await_result, search_lessons, search_tasks, view_session |
//! | TaskManager | create_task_full, await_result, list_tasks, search_tasks, cancel_task |
//! | Comms Session | create_task only |
use vstd::prelude::*;

use crate::domain::channel::ChannelKind;
use crate::domain::ids::ChannelId;
use crate::strings::str_eq;

verus! {

/// Closed set of Worker kinds. A Task carries one; its Session inherits the
/// prompt and tools.
#[derive(Debug, Clone, Copy, PartialEq, Eq, PartialOrd, Ord, Hash, Structural)]
pub enum RoleName {
    /// Searches the web and answers with URLs.
    Research,
    /// Splits work into Tasks; the default and only Role that can reach a human.
    Planning,
    /// Searches lessons and past Tasks.
    Memory,
    /// Operates the queue — lists, searches and cancels Tasks.
    TaskManager,
}

/// One tool, by name. The closed set; `tools/` holds what each one does.
#[derive(Debug, Clone, Copy, PartialEq, Eq, PartialOrd, Ord, Hash, Structural)]
pub enum ToolName {
    /// Enqueue a planning Task without Role or timing.
    CreateTask,
    /// Enqueue a Task, choosing Role, timing and priority.
    CreateTaskFull,
    /// Enqueue a research Task.
    CreateResearchTask,
    /// Block this turn until a Task completes and return its answer.
    AwaitResult,
    /// Inject a message into the Comms Session on a Channel.
    MessageHuman,
    WebSearch,
    WebFetch,
    SearchLessons,
    SearchTasks,
    ViewSession,
    ListTasks,
    CancelTask,
}

/// The name a Role is written as.
pub open spec fn role_text(r: RoleName) -> Seq<char> {
    match r {
        RoleName::Research => "research"@,
        RoleName::Planning => "planning"@,
        RoleName::Memory => "memory"@,
        RoleName::TaskManager => "task_manager"@,
    }
}

/// The name a tool is written as.
pub open spec fn tool_text(t: ToolName) -> Seq<char> {
    match t {
        ToolName::CreateTask => "create_task"@,
        ToolName::CreateTaskFull => "create_task_full"@,
        ToolName::CreateResearchTask => "create_research_task"@,
        ToolName::AwaitResult => "await_result"@,
        ToolName::MessageHuman => "message_human"@,
        ToolName::WebSearch => "web_search"@,
        ToolName::WebFetch => "web_fetch"@,
        ToolName::SearchLessons => "search_lessons"@,
        ToolName::SearchTasks => "search_tasks"@,
        ToolName::ViewSession => "view_session"@,
        ToolName::ListTasks => "list_tasks"@,
        ToolName::CancelTask => "cancel_task"@,
    }
}

impl RoleName {
    /// Every Role, in declaration order.
    pub fn variants() -> (v: Vec<RoleName>)
        ensures
            v@ == seq![RoleName::Research, RoleName::Planning, RoleName::Memory, RoleName::TaskManager],
    {
        let mut v = Vec::new();
        v.push(RoleName::Research);
        v.push(RoleName::Planning);
        v.push(RoleName::Memory);
        v.push(RoleName::TaskManager);
        v
    }

    /// The snake_case name.
    pub fn as_str(&self) -> (s: &'static str)
        ensures
            s@ == role_text(*self),
    {
        match self {
            RoleName::Research => "research",
            RoleName::Planning => "planning",
            RoleName::Memory => "memory",
            RoleName::TaskManager => "task_manager",
        }
    }

    /// The Role whose name `s` is, if any.
    pub fn from_str(s: &str) -> (r: Option<RoleName>)
        ensures
            match r {
                Some(role) => role_text(role) == s@,
                None => forall|role: RoleName| role_text(role) != s@,
            },
    {
        if str_eq(s, "research") {
            Some(RoleName::Research)
        } else if str_eq(s, "planning") {
            Some(RoleName::Planning)
        } else if str_eq(s, "memory") {
            Some(RoleName::Memory)
        } else if str_eq(s, "task_manager") {
            Some(RoleName::TaskManager)
        } else {
            None
        }
    }
}

impl ToolName {
    /// The snake_case name.
    pub fn as_str(&self) -> (s: &'static str)
        ensures
            s@ == tool_text(*self),
    {
        match self {
            ToolName::CreateTask => "create_task",
            ToolName::CreateTaskFull => "create_task_full",
            ToolName::CreateResearchTask => "create_research_task",
            ToolName::AwaitResult => "await_result",
            ToolName::MessageHuman => "message_human",
            ToolName::WebSearch => "web_search",
            ToolName::WebFetch => "web_fetch",
            ToolName::SearchLessons => "search_lessons",
            ToolName::SearchTasks => "search_tasks",
            ToolName::ViewSession => "view_session",
            ToolName::ListTasks => "list_tasks",
            ToolName::CancelTask => "cancel_task",
        }
    }

    /// The tool whose name `s` is, if any.
    pub fn from_str(s: &str) -> (t: Option<ToolName>)
        ensures
            match t {
                Some(tool) => tool_text(tool) == s@,
                None => forall|tool: ToolName| tool_text(tool) != s@,
            },
    {
        if str_eq(s, "create_task") {
            Some(ToolName::CreateTask)
        } else if str_eq(s, "create_task_full") {
            Some(ToolName::CreateTaskFull)
        } else if str_eq(s, "create_research_task") {
            Some(ToolName::CreateResearchTask)
        } else if str_eq(s, "await_result") {
            Some(ToolName::AwaitResult)
        } else if str_eq(s, "message_human") {
            Some(ToolName::MessageHuman)
        } else if str_eq(s, "web_search") {
            Some(ToolName::WebSearch)
        } else if str_eq(s, "web_fetch") {
            Some(ToolName::WebFetch)
        } else if str_eq(s, "search_lessons") {
            Some(ToolName::SearchLessons)
        } else if str_eq(s, "search_tasks") {
            Some(ToolName::SearchTasks)
        } else if str_eq(s, "view_session") {
            Some(ToolName::ViewSession)
        } else if str_eq(s, "list_tasks") {
            Some(ToolName::ListTasks)
        } else if str_eq(s, "cancel_task") {
            Some(ToolName::CancelTask)
        } else {
            None
        }
    }
}

/// The tools a Role's Workers are offered, in the order they are offered.
pub open spec fn role_tools(role: RoleName) -> Seq<ToolName> {
    match role {
        RoleName::Research => seq![
            ToolName::CreateTask,
            ToolName::CreateResearchTask,
            ToolName::AwaitResult,
            ToolName::WebSearch,
            ToolName::WebFetch,
        ],
        RoleName::Planning => seq![
            ToolName::CreateTask,
            ToolName::CreateTaskFull,
            ToolName::AwaitResult,
            ToolName::MessageHuman,
        ],
        RoleName::Memory => seq![
            ToolName::CreateTask,
            ToolName::AwaitResult,
            ToolName::SearchLessons,
            ToolName::SearchTasks,
            ToolName::ViewSession,
        ],
        RoleName::TaskManager => seq![
            ToolName::CreateTaskFull,
            ToolName::AwaitResult,
            ToolName::ListTasks,
            ToolName::SearchTasks,
            ToolName::CancelTask,
        ],
    }
}

/// Return the tool set for a Role.
pub fn tools_for(role: RoleName) -> (v: Vec<ToolName>)
    ensures
        v@ == role_tools(role),
{
    let mut v = Vec::new();
    match role {
        RoleName::Research => {
            v.push(ToolName::CreateTask);
            v.push(ToolName::CreateResearchTask);
            v.push(ToolName::AwaitResult);
            v.push(ToolName::WebSearch);
            v.push(ToolName::WebFetch);
        },
        RoleName::Planning => {
            v.push(ToolName::CreateTask);
            v.push(ToolName::CreateTaskFull);
            v.push(ToolName::AwaitResult);
            v.push(ToolName::MessageHuman);
        },
        RoleName::Memory => {
            v.push(ToolName::CreateTask);
            v.push(ToolName::AwaitResult);
            v.push(ToolName::SearchLessons);
            v.push(ToolName::SearchTasks);
            v.push(ToolName::ViewSession);
        },
        RoleName::TaskManager => {
            v.push(ToolName::CreateTaskFull);
            v.push(ToolName::AwaitResult);
            v.push(ToolName::ListTasks);
            v.push(ToolName::SearchTasks);
            v.push(ToolName::CancelTask);
        },
    }
    v
}

/// Tools for the standing Comms Session: it never ends and never produces a
/// Result, and only creates planning Tasks.
pub fn comms_session_tools() -> (v: Vec<ToolName>)
    ensures
        v@ == seq![ToolName::CreateTask],
{
    let mut v = Vec::new();
    v.push(ToolName::CreateTask);
    v
}

/// Only Planning can reach a human, and a Comms Session can do nothing but
/// hand work to planning.
pub proof fn law_only_planning_messages_humans(role: RoleName)
    ensures
        role_tools(role).contains(ToolName::MessageHuman) <==> role == RoleName::Planning,
{
    if role != RoleName::Planning {
        if role_tools(role).contains(ToolName::MessageHuman) {
            let i = choose|i: int| 0 <= i < role_tools(role).len() && role_tools(role)[i] == ToolName::MessageHuman;
            assert(role_tools(role)[i] != ToolName::MessageHuman);
        }
    } else {
        assert(role_tools(role)[3] == ToolName::MessageHuman);
    }
}

/// Context for building tool schemas for a Session: the open Channels, so
/// `message_human` enumerates only what exists.
#[derive(Debug, Clone)]
pub struct SchemaCtx {
    pub open_channels: Vec<(ChannelId, ChannelKind)>,
}

/// The Worker system prompt for a Role: the shared mechanics, then the
/// Role's own text.
pub fn system_prompt(prompts: &crate::prompts::Prompts, role: RoleName) -> (out: String)
    ensures
        out@ == crate::prompts::worker_prompt(*prompts, role),
{
    crate::prompts::system_prompt(prompts, role)
}

} // verus!
