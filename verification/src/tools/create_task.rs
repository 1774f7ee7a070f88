//! Putting work on the queue: the only route between agents.
//!
//! Three tools, one enqueue path. `create_task` hands work to planning,
//! `create_research_task` to research; neither lets the caller choose a Role
//! or a time. `create_task_full` chooses Role, timing and priority. None of
//! them waits, and none subscribes anyone: the Store reads the subscriber off
//! the calling Session.
use vstd::prelude::*;

use crate::domain::ids::{id_text, SessionId, TaskId};
use crate::domain::task::{priority_text, Creator, NewTask, Schedule, TaskPriority};
use crate::domain::text::{collapse, text_error_message, Brief, TextError, Title};
use crate::domain::time::Timestamp;
use crate::roles::{role_text, RoleName, ToolName};
use crate::strings::{all_ws, push_str, string_of};
use crate::tools::ToolError;

verus! {

/// Shared wording, so three schemas cannot describe one argument three ways.
pub const TITLE_DESC: &'static str = "One line describing the Task, so a human can scan it.";

/// Shared wording for the Brief argument.
pub const BRIEF_DESC: &'static str =
    "The full instructions. The Worker sees nothing else, so include every fact it needs. Write it for someone with no context.";

/// Every field a create-task call might carry, read off its arguments but not
/// yet checked. Each tool checks what it needs.
#[derive(Debug, Clone, PartialEq, Eq)]
pub struct ParsedArgs {
    pub title: Option<String>,
    pub brief: Option<String>,
    pub role: Option<String>,
    pub run_at_seconds: Option<i64>,
    pub repeat_seconds: Option<i64>,
    pub priority: Option<String>,
}

/// The Title, or why it cannot be one: missing, or blank.
pub fn require_title(title: Option<String>) -> (out: Result<Title, ToolError>)
    ensures
        match title {
            None => out == Err::<Title, ToolError>(ToolError::Missing { field: "title" }),
            Some(s) => if all_ws(s@) {
                out is Err && out->Err_0 is Rejected && out->Err_0->Rejected_0@
                    == text_error_message(TextError::Empty { what: "title" })
            } else {
                out is Ok && out->Ok_0@ == collapse(s@)
            },
        },
{
    match title {
        None => Err(ToolError::Missing { field: "title" }),
        Some(s) => match Title::try_from(s) {
            Ok(t) => Ok(t),
            Err(e) => Err(ToolError::Rejected(e.message())),
        },
    }
}

/// The Brief, or why it cannot be one: missing, or blank.
pub fn require_brief(brief: Option<String>) -> (out: Result<Brief, ToolError>)
    ensures
        match brief {
            None => out == Err::<Brief, ToolError>(ToolError::Missing { field: "brief" }),
            Some(s) => if all_ws(s@) {
                out is Err && out->Err_0 is Rejected && out->Err_0->Rejected_0@
                    == text_error_message(TextError::Empty { what: "brief" })
            } else {
                out is Ok && out->Ok_0@ == s@
            },
        },
{
    match brief {
        None => Err(ToolError::Missing { field: "brief" }),
        Some(s) => match Brief::try_from(s) {
            Ok(b) => Ok(b),
            Err(e) => Err(ToolError::Rejected(e.message())),
        },
    }
}

/// The Role `create_task_full` names, or why the one given is not one.
pub fn require_role(role: Option<String>) -> (out: Result<RoleName, ToolError>)
    ensures
        match role {
            None => out == Err::<RoleName, ToolError>(ToolError::Missing { field: "role" }),
            Some(s) => match out {
                Ok(r) => role_text(r) == s@,
                Err(e) => e == (ToolError::NoSuchRole { given: s }) && forall|r: RoleName|
                    role_text(r) != s@,
            },
        },
{
    match role {
        None => Err(ToolError::Missing { field: "role" }),
        Some(given) => match RoleName::from_str(given.as_str()) {
            Some(r) => Ok(r),
            None => Err(ToolError::NoSuchRole { given }),
        },
    }
}

/// Why a priority is refused.
pub open spec fn priority_refusal(given: Seq<char>) -> Seq<char> {
    seq!['`'] + given + "` is not a priority. Use high, normal or low."@
}

/// The priority `create_task_full` asks for: normal where none is given.
pub fn priority_from(priority: Option<String>) -> (out: Result<TaskPriority, ToolError>)
    ensures
        match priority {
            None => out == Ok::<TaskPriority, ToolError>(TaskPriority::Normal),
            Some(s) => match out {
                Ok(p) => priority_text(p) == s@,
                Err(e) => e is Rejected && e->Rejected_0@ == priority_refusal(s@) && forall|
                    p: TaskPriority,
                | priority_text(p) != s@,
            },
        },
{
    match priority {
        None => Ok(TaskPriority::default()),
        Some(other) => match TaskPriority::from_str(other.as_str()) {
            Some(p) => Ok(p),
            None => {
                let mut v: Vec<char> = Vec::new();
                v.push('`');
                push_str(&mut v, other.as_str());
                push_str(&mut v, "` is not a priority. Use high, normal or low.");
                Err(ToolError::Rejected(string_of(&v)))
            },
        },
    }
}

/// Why a delay is refused: it would put the Task past the end of time.
pub open spec fn delay_refusal() -> Seq<char> {
    "`run_at_seconds` is too far off."@
}

/// When a Task with this delay may first run: now where none is given;
/// `None` where the delay or the instant does not fit in milliseconds.
pub open spec fn delayed(run_at_seconds: Option<i64>, now: Timestamp) -> Option<Schedule> {
    match run_at_seconds {
        None => Some(Schedule::Now),
        Some(secs) => if i64::MIN <= secs * 1000 <= i64::MAX && i64::MIN <= now.0 + secs * 1000
            <= i64::MAX {
            Some(Schedule::At(Timestamp((now.0 + secs * 1000) as i64)))
        } else {
            None
        },
    }
}

/// When a Task with this delay may first run, or why the delay is refused.
pub fn schedule_from(run_at_seconds: Option<i64>, now: Timestamp) -> (out: Result<Schedule, ToolError>)
    ensures
        match delayed(run_at_seconds, now) {
            Some(s) => out == Ok::<Schedule, ToolError>(s),
            None => out is Err && out->Err_0 is Rejected && out->Err_0->Rejected_0@ == delay_refusal(),
        },
{
    match run_at_seconds {
        None => Ok(Schedule::Now),
        Some(secs) => {
            let ms = secs.checked_mul(1000);
            match ms {
                Some(m) => match now.0.checked_add(m) {
                    Some(t) => Ok(Schedule::At(Timestamp(t))),
                    None => Err(ToolError::Rejected(crate::strings::owned("`run_at_seconds` is too far off."))),
                },
                None => {
                    Err(ToolError::Rejected(crate::strings::owned("`run_at_seconds` is too far off.")))
                },
            }
        },
    }
}

/// Why `repeat_seconds` is refused: no schedule repeats at a fixed interval,
/// so a Task cannot be made to; a repeating Task is a cron Task.
pub open spec fn repeat_refusal() -> Seq<char> {
    "`repeat_seconds` cannot be honoured: no schedule repeats every so many seconds. Omit it."@
}

/// Whether `e` refuses an argument with these words.
pub open spec fn rejects(e: ToolError, why: Seq<char>) -> bool {
    e matches ToolError::Rejected(w) && w@ == why
}

/// The first thing wrong with the title and the brief, in that order, where
/// anything is: missing, or blank.
pub open spec fn text_fault(args: ParsedArgs, e: ToolError) -> Option<bool> {
    match args.title {
        None => Some(e == (ToolError::Missing { field: "title" })),
        Some(t) => if all_ws(t@) {
            Some(rejects(e, text_error_message(TextError::Empty { what: "title" })))
        } else {
            match args.brief {
                None => Some(e == (ToolError::Missing { field: "brief" })),
                Some(b) => if all_ws(b@) {
                    Some(rejects(e, text_error_message(TextError::Empty { what: "brief" })))
                } else {
                    None
                },
            }
        },
    }
}

/// The first thing wrong with a `create_task_full` call, where anything is,
/// and whether `e` is the error that says so. The call is checked in this
/// order: the repeat, the delay, the priority, the title, the brief, the
/// Role.
pub open spec fn full_fault(args: ParsedArgs, now: Timestamp, e: ToolError) -> Option<bool> {
    if args.repeat_seconds is Some {
        Some(rejects(e, repeat_refusal()))
    } else if delayed(args.run_at_seconds, now) is None {
        Some(rejects(e, delay_refusal()))
    } else if args.priority matches Some(p) && forall|q: TaskPriority| priority_text(q) != p@ {
        Some(rejects(e, priority_refusal(args.priority->Some_0@)))
    } else if text_fault(args, e) is Some {
        text_fault(args, e)
    } else {
        match args.role {
            None => Some(e == (ToolError::Missing { field: "role" })),
            Some(r) => if forall|q: RoleName| role_text(q) != r@ {
                Some(e == (ToolError::NoSuchRole { given: r }))
            } else {
                None
            },
        }
    }
}

/// Whether a create-task call by `tool` is refused.
pub open spec fn refused(tool: ToolName, args: ParsedArgs, now: Timestamp) -> bool {
    if tool == ToolName::CreateTaskFull {
        full_fault(args, now, ToolError::BadJson) is Some
    } else {
        text_fault(args, ToolError::BadJson) is Some
    }
}

/// The Task a create-task call asks for, or the first thing wrong with its
/// arguments. `create_task` and `create_research_task` check the title, then
/// the brief, and fix the Role and timing; `create_task_full` checks the
/// repeat (which it refuses), the timing, the priority, the title, the brief
/// and the Role, in that order. A call with nothing wrong is never refused.
pub fn new_task_from(tool: ToolName, args: ParsedArgs, caller: SessionId, now: Timestamp) -> (out: Result<
    NewTask,
    ToolError,
>)
    requires
        tool == ToolName::CreateTask || tool == ToolName::CreateResearchTask || tool
            == ToolName::CreateTaskFull,
    ensures
        (out is Ok) <==> !refused(tool, args, now),
        match out {
            Ok(t) => {
                &&& t.created_by == Creator::Session(caller)
                &&& args.title is Some && t.title@ == collapse(args.title->Some_0@)
                &&& args.brief is Some && t.brief@ == args.brief->Some_0@
                &&& tool == ToolName::CreateTask ==> t.role == RoleName::Planning && t.schedule
                    == Schedule::Now && t.priority == TaskPriority::Normal
                &&& tool == ToolName::CreateResearchTask ==> t.role == RoleName::Research
                    && t.schedule == Schedule::Now && t.priority == TaskPriority::Normal
                &&& tool == ToolName::CreateTaskFull ==> args.role is Some && role_text(t.role)
                    == args.role->Some_0@ && delayed(args.run_at_seconds, now) == Some(t.schedule) && (match args.priority {
                    None => t.priority == TaskPriority::Normal,
                    Some(p) => priority_text(t.priority) == p@,
                })
            },
            Err(e) => if tool == ToolName::CreateTaskFull {
                full_fault(args, now, e) == Some(true)
            } else {
                text_fault(args, e) == Some(true)
            },
        },
{
    let ParsedArgs { title, brief, role, run_at_seconds, repeat_seconds, priority } = args;
    if tool == ToolName::CreateTaskFull {
        if repeat_seconds.is_some() {
            return Err(ToolError::Rejected(crate::strings::owned(
                "`repeat_seconds` cannot be honoured: no schedule repeats every so many seconds. Omit it.",
            )));
        }
        let schedule = match schedule_from(run_at_seconds, now) {
            Ok(s) => s,
            Err(e) => return Err(e),
        };
        let priority = match priority_from(priority) {
            Ok(p) => p,
            Err(e) => return Err(e),
        };
        let title = match require_title(title) {
            Ok(t) => t,
            Err(e) => return Err(e),
        };
        let brief = match require_brief(brief) {
            Ok(b) => b,
            Err(e) => return Err(e),
        };
        let role = match require_role(role) {
            Ok(r) => r,
            Err(e) => return Err(e),
        };
        Ok(NewTask { title, brief, role, schedule, priority, created_by: Creator::Session(caller) })
    } else {
        let title = match require_title(title) {
            Ok(t) => t,
            Err(e) => return Err(e),
        };
        let brief = match require_brief(brief) {
            Ok(b) => b,
            Err(e) => return Err(e),
        };
        let role = if tool == ToolName::CreateTask {
            RoleName::Planning
        } else {
            RoleName::Research
        };
        Ok(
            NewTask {
                title,
                brief,
                role,
                schedule: Schedule::Now,
                priority: TaskPriority::Normal,
                created_by: Creator::Session(caller),
            },
        )
    }
}

/// What a caller is told once its Task exists. A Worker is reminded it can
/// call `await_result`; a Comms Session, which has no such tool, is told the
/// answer will reach it.
pub open spec fn created_text(is_worker: bool, id: TaskId) -> Seq<char> {
    if is_worker {
        "Created "@ + id_text("t"@, id.0) + ". Call await_result with this id when you are ready for its answer."@
    } else {
        "Created "@ + id_text("t"@, id.0) + ". Its answer will reach you here when it is ready."@
    }
}

/// The words a caller reads once its Task exists.
pub fn created_reply(is_worker: bool, id: TaskId) -> (out: String)
    ensures
        out@ == created_text(is_worker, id),
{
    let mut v: Vec<char> = Vec::new();
    push_str(&mut v, "Created ");
    let t = id.to_string();
    push_str(&mut v, t.as_str());
    if is_worker {
        push_str(&mut v, ". Call await_result with this id when you are ready for its answer.");
    } else {
        push_str(&mut v, ". Its answer will reach you here when it is ready.");
    }
    string_of(&v)
}

} // verus!
