//! The control socket's protocol and rules: what another process may ask of
//! a running Sandman, how each request is checked, and how the answers are
//! written. One JSON line in, one JSON line out; the socket itself is the
//! caller's.
use vstd::prelude::*;

use crate::domain::ids::{id_text, TaskId};
use crate::domain::task::{
    cron_refusal, cron_normalised, priority_text, schedule_error_message, schedule_not_before, state_name, state_name_text, Creator,
    NewTask, Schedule, ScheduleError, TaskPriority, TaskStateName, TaskSummary,
};
use crate::domain::text::{collapse, text_error_message, Brief, TextError, Title};
use crate::domain::time::{cost_text, Spend, Timestamp};
use crate::roles::{role_text, RoleName};
use crate::store::{store_error_text, ListFilter, StoreError};
use crate::strings::{all_ws, owned, push_str, string_of};

verus! {

/// What another process may ask.
#[derive(Debug, Clone, PartialEq, Eq)]
pub enum Request {
    CreateTask {
        role: String,
        title: String,
        brief: String,
        in_seconds: Option<i64>,
        cron: Option<String>,
        priority: Option<String>,
    },
    ListTasks { state: Option<String>, count: Option<usize> },
    Spend,
}

/// What it is answered.
#[derive(Debug, Clone, PartialEq, Eq)]
pub enum Response {
    Created { id: String },
    Tasks { tasks: Vec<TaskLine> },
    Spent { calls: u32, tokens: u64, cost: String },
    Error { message: String },
}

/// One Task as the control socket reports it.
#[derive(Debug, Clone, PartialEq, Eq)]
pub struct TaskLine {
    pub id: String,
    pub title: String,
    pub role: String,
    pub state: String,
    pub not_before: Option<i64>,
    pub created_at: i64,
}

impl TaskLine {
    /// A Task summary as a line of the report.
    pub fn from(t: TaskSummary) -> (out: TaskLine)
        ensures
            out.id@ == id_text("t"@, t.id.0),
            out.title@ == t.title@,
            out.role@ == role_text(t.role),
            out.state@ == state_name_text(state_name(t.state)),
            out.not_before == (match schedule_not_before(t.schedule) {
                Some(ts) => Some(ts.0),
                None => None,
            }),
            out.created_at == t.created_at.0,
    {
        let n = t.state.name();
        let nb = match t.schedule.not_before() {
            Some(ts) => Some(ts.0),
            None => None,
        };
        TaskLine {
            id: t.id.to_string(),
            title: t.title.to_string(),
            role: owned(t.role.as_str()),
            state: owned(n.as_str()),
            not_before: nb,
            created_at: t.created_at.0,
        }
    }
}

impl Response {
    /// The answer to a Task created.
    pub fn created(id: TaskId) -> (out: Response)
        ensures
            out matches Response::Created { id: s } && s@ == id_text("t"@, id.0),
    {
        Response::Created { id: id.to_string() }
    }

    /// The answer to a request for the Run's spend.
    pub fn spent(s: Spend) -> (out: Response)
        ensures
            out matches Response::Spent { calls, tokens, cost } && calls == s.calls && tokens
                == s.tokens && cost@ == cost_text(s.cost.0 as int),
    {
        Response::Spent { calls: s.calls, tokens: s.tokens, cost: s.cost.to_string() }
    }

    /// The answer when the Store failed.
    pub fn failed(e: &StoreError) -> (out: Response)
        ensures
            out matches Response::Error { message } && message@ == store_error_text(*e),
    {
        Response::Error { message: e.message() }
    }
}

/// What a request comes to once checked: something for the Store to do, or
/// the answer already.
#[derive(Debug, Clone, PartialEq, Eq)]
pub enum Action {
    Create(NewTask),
    List(ListFilter),
    Spend,
    Answer(Response),
}

/// The refusal of a Role name that is none.
pub open spec fn not_a_role(given: Seq<char>) -> Seq<char> {
    seq!['`'] + given + "` is not a Role."@
}

/// The refusal of a priority that is none.
pub open spec fn not_a_priority(given: Seq<char>) -> Seq<char> {
    seq!['`'] + given + "` is not a priority. Use high, normal or low."@
}

/// The refusal of a Task state that is none.
pub open spec fn not_a_state(given: Seq<char>) -> Seq<char> {
    seq!['`'] + given + "` is not a Task state."@
}

/// Whether `r` is the error answer with exactly this message.
pub open spec fn is_error(r: Response, message: Seq<char>) -> bool {
    r matches Response::Error { message: m } && m@ == message
}

/// Checks a request and decides what it asks for. Creating a Task checks, in
/// order, the Role, the title, the brief, the priority and the schedule, and
/// answers the first refusal; the Task is created by the control socket.
pub fn plan(request: Request, now: Timestamp) -> (out: Action)
    requires
        request matches Request::CreateTask { in_seconds: Some(secs), .. } ==> i64::MIN <= secs * 1000
            <= i64::MAX && i64::MIN <= now.0 + secs * 1000 <= i64::MAX,
    ensures
        match request {
            Request::CreateTask { role, title, brief, in_seconds, cron, priority } => {
                if forall|r: RoleName| role_text(r) != role@ {
                    out matches Action::Answer(a) && is_error(a, not_a_role(role@))
                } else if all_ws(title@) {
                    out matches Action::Answer(a) && is_error(
                        a,
                        text_error_message(TextError::Empty { what: "title" }),
                    )
                } else if all_ws(brief@) {
                    out matches Action::Answer(a) && is_error(
                        a,
                        text_error_message(TextError::Empty { what: "brief" }),
                    )
                } else if priority matches Some(p) && forall|q: TaskPriority| priority_text(q) != p@ {
                    out matches Action::Answer(a) && is_error(a, not_a_priority(priority->Some_0@))
                } else {
                    match out {
                        Action::Create(t) => {
                            &&& role_text(t.role) == role@
                            &&& t.title@ == collapse(title@)
                            &&& t.brief@ == brief@
                            &&& t.created_by == Creator::Control
                            &&& (match priority {
                                None => t.priority == TaskPriority::Normal,
                                Some(p) => priority_text(t.priority) == p@,
                            })
                            &&& (match (in_seconds, cron) {
                                (Some(_), Some(_)) => false,
                                (None, None) => t.schedule == Schedule::Now,
                                (Some(secs), None) => t.schedule == Schedule::At(
                                    Timestamp((now.0 + secs * 1000) as i64),
                                ),
                                (None, Some(c)) => cron_refusal(c@) is None && t.schedule is Cron
                                    && t.schedule->expr.source() == c@ && t.schedule->next.0 > now.0,
                            })
                        },
                        Action::Answer(a) => match (in_seconds, cron) {
                            (Some(_), Some(_)) => is_error(a, schedule_error_message(ScheduleError::Both)),
                            (None, Some(c)) => match cron_refusal(c@) {
                                Some(why) => is_error(
                                    a,
                                    seq!['`'] + c@ + "` is not a cron expression: "@ + why,
                                ),
                                None => is_error(
                                    a,
                                    seq!['`'] + cron_normalised(c@) + "` never comes round again"@,
                                ),
                            },
                            _ => false,
                        },
                        _ => false,
                    }
                }
            },
            Request::ListTasks { state, count } => match state {
                None => out == Action::List(ListFilter { state: None, count }),
                Some(s) => if forall|n: TaskStateName| state_name_text(n) != s@ {
                    out matches Action::Answer(a) && is_error(a, not_a_state(s@))
                } else {
                    out matches Action::List(f) && f.count == count && f.state is Some
                        && state_name_text(f.state->Some_0) == s@
                },
            },
            Request::Spend => out == Action::Spend,
        },
{
    match request {
        Request::CreateTask { role, title, brief, in_seconds, cron, priority } => {
            let role = match RoleName::from_str(role.as_str()) {
                Some(r) => r,
                None => {
                    let mut v: Vec<char> = Vec::new();
                    v.push('`');
                    push_str(&mut v, role.as_str());
                    push_str(&mut v, "` is not a Role.");
                    return Action::Answer(Response::Error { message: string_of(&v) });
                },
            };
            let title = match Title::try_from(title) {
                Ok(t) => t,
                Err(e) => return Action::Answer(Response::Error { message: e.message() }),
            };
            let brief = match Brief::try_from(brief) {
                Ok(b) => b,
                Err(e) => return Action::Answer(Response::Error { message: e.message() }),
            };
            let priority = match priority {
                None => TaskPriority::Normal,
                Some(given) => match TaskPriority::from_str(given.as_str()) {
                    Some(p) => p,
                    None => {
                        let mut v: Vec<char> = Vec::new();
                        v.push('`');
                        push_str(&mut v, given.as_str());
                        push_str(&mut v, "` is not a priority. Use high, normal or low.");
                        return Action::Answer(Response::Error { message: string_of(&v) });
                    },
                },
            };
            let schedule = match cron {
                Some(c) => match Schedule::parse(in_seconds, Some(c.as_str()), now) {
                    Ok(s) => s,
                    Err(e) => return Action::Answer(Response::Error { message: e.message() }),
                },
                None => match Schedule::parse(in_seconds, None, now) {
                    Ok(s) => s,
                    Err(e) => return Action::Answer(Response::Error { message: e.message() }),
                },
            };
            Action::Create(NewTask { title, brief, role, schedule, priority, created_by: Creator::Control })
        },
        Request::ListTasks { state, count } => match state {
            None => Action::List(ListFilter { state: None, count }),
            Some(given) => match TaskStateName::from_str(given.as_str()) {
                Some(n) => Action::List(ListFilter { state: Some(n), count }),
                None => {
                    let mut v: Vec<char> = Vec::new();
                    v.push('`');
                    push_str(&mut v, given.as_str());
                    push_str(&mut v, "` is not a Task state.");
                    Action::Answer(Response::Error { message: string_of(&v) })
                },
            },
        },
        Request::Spend => Action::Spend,
    }
}

} // verus!
