//! One entry on the time-ordered queue.
//!
//! A `Task` is the single unit of work — human request, investigation and
//! delegated work are the same type. `TaskState` and `Schedule` make invalid
//! states unrepresentable: a completed task always has a result, a pending one
//! never does, a running one always names its `Session`, a cron task always
//! knows when it next comes round.
//!
//! | Schedule | `not_before` | `re_armed(now)` |
//! | --- | --- | --- |
//! | `Now` | `None` | `None` |
//! | `At(t)` | `Some(t)` | `None` |
//! | `Cron{expr,next}` | `Some(next)` | next match after `now` |
use vstd::prelude::*;

use crate::domain::ids::{ChannelId, RunId, SessionId, TaskId};
use crate::domain::text::{Brief, Title};
use crate::domain::time::{Duration, Timestamp};
use crate::roles::RoleName;
use crate::strings::{owned, push_str, str_eq, string_of};

verus! {

#[verifier::external_type_specification]
#[verifier::external_body]
pub struct ExCron(croner::Cron);

/// What croner makes of a cron expression: `None` when `Cron::from_str`
/// accepts it, or the text of the error it refuses it with.
pub uninterp spec fn cron_refusal(expr: Seq<char>) -> Option<Seq<char>>;

/// Parses `expr` with croner's `Cron::from_str`; a refusal comes back as the
/// error's text. Whether it is accepted, and the refusal's wording, are a
/// function of the expression, named `cron_refusal`.
#[verifier::external_body]
fn parse_cron(expr: &str) -> (out: Result<croner::Cron, String>)
    ensures
        match cron_refusal(expr@) {
            None => out is Ok,
            Some(why) => out is Err && out->Err_0@ == why,
        },
{
    match expr.parse::<croner::Cron>() {
        Ok(cron) => Ok(cron),
        Err(e) => Err(e.to_string()),
    }
}

/// The first instant strictly after `now_ms` (epoch millis, read in the
/// machine's local time zone) that croner's `find_next_occurrence` matches,
/// as epoch millis; `None` when there is none or the instant cannot be placed.
/// Which instant it is depends on the local time zone and is left unsaid;
/// what holds of every answer is that it lies after `now_ms`, since croner's
/// non-inclusive search first steps a second past its start.
#[verifier::external_body]
fn cron_next_after(cron: &croner::Cron, now_ms: i64) -> (out: Option<i64>)
    ensures
        out matches Some(t) ==> t > now_ms,
{
    let from = chrono::TimeZone::timestamp_millis_opt(&chrono::Local, now_ms).single()?;
    let next = cron.find_next_occurrence(&from, false).ok()?;
    Some(next.timestamp_millis())
}

/// Clones a parsed expression with croner's `Cron::clone`, which is derived
/// and copies every field: the copy is the same value.
#[verifier::external_body]
fn clone_cron(cron: &croner::Cron) -> (out: croner::Cron)
    ensures
        out == *cron,
{
    cron.clone()
}

/// What croner's `Cron::as_str` gives of the `Cron` it parsed from `expr`:
/// the pattern it kept, upper-cased, trimmed and with names and nicknames
/// replaced. A function of the expression alone.
pub uninterp spec fn cron_normalised(expr: Seq<char>) -> Seq<char>;

/// croner's normalised text of a parsed expression (`Cron::as_str`), named
/// `cron_normalised` of the text the expression was parsed from. A
/// `CronExpr` is only made by parsing its text, or by copying one that was.
#[verifier::external_body]
fn cron_text(expr: &CronExpr) -> (out: String)
    ensures
        out@ == cron_normalised(expr.source()),
{
    expr.cron.as_str().to_string()
}

/// One piece of work.
#[derive(Debug, Clone, PartialEq, Eq)]
pub struct Task {
    pub id: TaskId,
    /// The Run the Task belongs to.
    pub run: RunId,
    pub title: Title,
    /// The only thing the Worker gets. Must stand alone.
    pub brief: Brief,
    pub role: RoleName,
    pub state: TaskState,
    pub schedule: Schedule,
    /// Channel awaiting the Result, if any; derived from `Creator` by the Store.
    pub subscriber: Option<ChannelId>,
    /// How urgently the swarm should spend a model call on the task.
    pub priority: TaskPriority,
    pub created_by: Creator,
    pub created_at: Timestamp,
}

/// Where a task is in its life, and data valid in each state.
#[derive(Debug, Clone, PartialEq, Eq)]
pub enum TaskState {
    /// Waiting on the queue. Picked on one condition: time.
    Pending,
    /// Held by a session.
    Running { session: SessionId, started_at: Timestamp },
    /// Done, with a result — success or failure. Terminal.
    Completed { result: TaskResult, at: Timestamp },
    /// Stopped before a result. Terminal; no result.
    Cancelled { at: Timestamp },
}

/// A task state without its payload — the tag persisted and the only value a
/// filter can name.
#[derive(Debug, Clone, Copy, PartialEq, Eq, Structural)]
pub enum TaskStateName {
    Pending,
    Running,
    Completed,
    Cancelled,
}

/// What a session produced for its task; a failure is a result saying so.
#[derive(Debug, Clone, PartialEq, Eq)]
pub enum TaskResult {
    Succeeded(String),
    Failed(String),
}

/// When a task may run, and whether it makes work of its own.
#[derive(Debug, Clone, PartialEq, Eq)]
pub enum Schedule {
    /// As soon as the queue reaches it.
    Now,
    /// Not before this instant.
    At(Timestamp),
    /// Never runs: each time `next` comes round the Harness copies the Task
    /// into a daughter due now and re-arms.
    Cron { expr: CronExpr, next: Timestamp },
}

/// A cron expression, parsed once. Five fields as `crontab` writes them, or
/// six with leading seconds; read in local time. It keeps the text it was
/// parsed from.
#[derive(Debug, Clone, PartialEq, Eq)]
pub struct CronExpr {
    cron: Box<croner::Cron>,
    source: String,
}

/// Why an asked-for schedule is not one. The wording is model-facing.
#[derive(Debug, Clone, PartialEq, Eq)]
pub enum ScheduleError {
    Both,
    NotACron { expr: String, why: String },
    NeverFires { expr: String },
}

/// How urgently the swarm should spend a call on a task.
#[derive(Debug, Clone, Copy, PartialEq, Eq, PartialOrd, Ord, Structural)]
pub enum TaskPriority {
    High,
    Normal,
    Low,
}

/// Who put a task on the queue.
#[derive(Debug, Clone, Copy, PartialEq, Eq, Structural)]
pub enum Creator {
    /// A session, through one of the create-task tools.
    Session(SessionId),
    /// A one-shot run from the command line.
    Cli,
    /// Another process, through the control socket.
    Control,
    /// A cron Task whose occurrence came round: its daughters name it.
    CronTask(TaskId),
}

/// Everything needed to put a task on the queue. The Store mints the id and
/// derives the subscriber from `created_by`.
#[derive(Debug, Clone, PartialEq, Eq)]
pub struct NewTask {
    pub title: Title,
    pub brief: Brief,
    pub role: RoleName,
    pub schedule: Schedule,
    pub priority: TaskPriority,
    pub created_by: Creator,
}

/// A task as `list_tasks` and the control socket report it.
#[derive(Debug, Clone, PartialEq, Eq)]
pub struct TaskSummary {
    pub id: TaskId,
    pub title: Title,
    pub role: RoleName,
    pub state: TaskState,
    pub schedule: Schedule,
    pub created_at: Timestamp,
}

impl Default for TaskPriority {
    fn default() -> (p: TaskPriority)
        ensures
            p == TaskPriority::Normal,
    {
        TaskPriority::Normal
    }
}

/// The name a priority is written as.
pub open spec fn priority_text(p: TaskPriority) -> Seq<char> {
    match p {
        TaskPriority::High => "high"@,
        TaskPriority::Normal => "normal"@,
        TaskPriority::Low => "low"@,
    }
}

impl TaskPriority {
    /// The snake_case name.
    pub fn as_str(&self) -> (s: &'static str)
        ensures
            s@ == priority_text(*self),
    {
        match self {
            TaskPriority::High => "high",
            TaskPriority::Normal => "normal",
            TaskPriority::Low => "low",
        }
    }

    /// The priority whose name `s` is, if any.
    pub fn from_str(s: &str) -> (p: Option<TaskPriority>)
        ensures
            match p {
                Some(q) => priority_text(q) == s@,
                None => forall|q: TaskPriority| priority_text(q) != s@,
            },
    {
        if str_eq(s, "high") {
            Some(TaskPriority::High)
        } else if str_eq(s, "normal") {
            Some(TaskPriority::Normal)
        } else if str_eq(s, "low") {
            Some(TaskPriority::Low)
        } else {
            None
        }
    }
}

/// The tag of a state.
pub open spec fn state_name(s: TaskState) -> TaskStateName {
    match s {
        TaskState::Pending => TaskStateName::Pending,
        TaskState::Running { .. } => TaskStateName::Running,
        TaskState::Completed { .. } => TaskStateName::Completed,
        TaskState::Cancelled { .. } => TaskStateName::Cancelled,
    }
}

/// The name a state tag is written as.
pub open spec fn state_name_text(n: TaskStateName) -> Seq<char> {
    match n {
        TaskStateName::Pending => "pending"@,
        TaskStateName::Running => "running"@,
        TaskStateName::Completed => "completed"@,
        TaskStateName::Cancelled => "cancelled"@,
    }
}

impl TaskStateName {
    /// Every state tag, in declaration order.
    pub fn variants() -> (v: Vec<TaskStateName>)
        ensures
            v@ == seq![TaskStateName::Pending, TaskStateName::Running, TaskStateName::Completed, TaskStateName::Cancelled],
    {
        let mut v = Vec::new();
        v.push(TaskStateName::Pending);
        v.push(TaskStateName::Running);
        v.push(TaskStateName::Completed);
        v.push(TaskStateName::Cancelled);
        v
    }

    /// The snake_case name.
    pub fn as_str(&self) -> (s: &'static str)
        ensures
            s@ == state_name_text(*self),
    {
        match self {
            TaskStateName::Pending => "pending",
            TaskStateName::Running => "running",
            TaskStateName::Completed => "completed",
            TaskStateName::Cancelled => "cancelled",
        }
    }

    /// The state tag whose name `s` is, if any.
    pub fn from_str(s: &str) -> (n: Option<TaskStateName>)
        ensures
            match n {
                Some(m) => state_name_text(m) == s@,
                None => forall|m: TaskStateName| state_name_text(m) != s@,
            },
    {
        if str_eq(s, "pending") {
            Some(TaskStateName::Pending)
        } else if str_eq(s, "running") {
            Some(TaskStateName::Running)
        } else if str_eq(s, "completed") {
            Some(TaskStateName::Completed)
        } else if str_eq(s, "cancelled") {
            Some(TaskStateName::Cancelled)
        } else {
            None
        }
    }
}

/// Whether a state is terminal: no further transition.
pub open spec fn terminal(s: TaskState) -> bool {
    s is Completed || s is Cancelled
}

impl TaskState {
    /// Whether this state is terminal — no further transition.
    pub fn is_terminal(&self) -> (b: bool)
        ensures
            b == terminal(*self),
    {
        match self {
            TaskState::Completed { .. } | TaskState::Cancelled { .. } => true,
            _ => false,
        }
    }

    /// The state's tag.
    pub fn name(&self) -> (n: TaskStateName)
        ensures
            n == state_name(*self),
    {
        match self {
            TaskState::Pending => TaskStateName::Pending,
            TaskState::Running { .. } => TaskStateName::Running,
            TaskState::Completed { .. } => TaskStateName::Completed,
            TaskState::Cancelled { .. } => TaskStateName::Cancelled,
        }
    }
}

/// The text of a result, success or failure.
pub open spec fn result_text(r: TaskResult) -> Seq<char> {
    match r {
        TaskResult::Succeeded(t) => t@,
        TaskResult::Failed(t) => t@,
    }
}

impl TaskResult {
    /// Text of the result, success or failure.
    pub fn content(&self) -> (out: &str)
        ensures
            out@ == result_text(*self),
    {
        match self {
            TaskResult::Succeeded(text) => text.as_str(),
            TaskResult::Failed(text) => text.as_str(),
        }
    }
}

/// The earliest instant a schedule may run: for a cron, when the next
/// daughter is due.
pub open spec fn schedule_not_before(s: Schedule) -> Option<Timestamp> {
    match s {
        Schedule::Now => None,
        Schedule::At(t) => Some(t),
        Schedule::Cron { next, .. } => Some(next),
    }
}

/// The name a schedule's kind is written as.
pub open spec fn schedule_tag(s: Schedule) -> Seq<char> {
    match s {
        Schedule::Now => "now"@,
        Schedule::At(_) => "at"@,
        Schedule::Cron { .. } => "cron"@,
    }
}

impl Schedule {
    /// Earliest instant this schedule may run, if any.
    pub fn not_before(&self) -> (t: Option<Timestamp>)
        ensures
            t == schedule_not_before(*self),
    {
        match self {
            Schedule::Now => None,
            Schedule::At(t) => Some(*t),
            Schedule::Cron { next, .. } => Some(*next),
        }
    }

    /// The snake_case name of the schedule's kind.
    pub fn tag(&self) -> (s: &'static str)
        ensures
            s@ == schedule_tag(*self),
    {
        match self {
            Schedule::Now => "now",
            Schedule::At(_) => "at",
            Schedule::Cron { .. } => "cron",
        }
    }

    /// The same cron schedule armed for the first occurrence after `now`;
    /// `None` once the expression has no future occurrence left, and for a
    /// schedule that is not a cron.
    pub fn re_armed(&self, now: Timestamp) -> (out: Option<Schedule>)
        ensures
            !(self is Cron) ==> out is None,
            out is Some ==> self is Cron && out->Some_0 is Cron && out->Some_0->expr == self->expr
                && out->Some_0->next.0 > now.0,
    {
        match self {
            Schedule::Cron { expr, .. } => match expr.next_after(now) {
                Some(next) => Some(Schedule::Cron { expr: expr.copy(), next }),
                None => None,
            },
            _ => None,
        }
    }

    /// A cron schedule for `expr` given when it next comes round, or why it
    /// is none: `NeverFires` when it never does.
    pub fn armed(expr: CronExpr, next: Option<Timestamp>) -> (out: Result<Schedule, ScheduleError>)
        ensures
            match next {
                Some(t) => out == Ok::<Schedule, ScheduleError>(Schedule::Cron { expr, next: t }),
                None => out is Err && out->Err_0 is NeverFires && out->Err_0->NeverFires_expr@
                    == cron_normalised(expr.source()),
            },
    {
        match next {
            Some(t) => Ok(Schedule::Cron { expr, next: t }),
            None => Err(ScheduleError::NeverFires { expr: expr.to_string() }),
        }
    }

    /// Build a schedule from the two things a caller may ask for: a delay in
    /// seconds or a cron expression, never both, neither meaning now. The
    /// single parser for tool, control and CLI.
    pub fn parse(in_seconds: Option<i64>, cron: Option<&str>, now: Timestamp) -> (out: Result<
        Schedule,
        ScheduleError,
    >)
        requires
            in_seconds matches Some(secs) ==> i64::MIN <= secs * 1000 && secs * 1000 <= i64::MAX && i64::MIN
                <= now.0 + secs * 1000 <= i64::MAX,
        ensures
            match (in_seconds, cron) {
                (Some(_), Some(_)) => out == Err::<Schedule, ScheduleError>(ScheduleError::Both),
                (_, Some(expr)) => match cron_refusal(expr@) {
                    Some(why) => out is Err && out->Err_0 is NotACron && out->Err_0->NotACron_expr@ == expr@
                        && out->Err_0->NotACron_why@ == why,
                    None => (out is Ok && out->Ok_0 is Cron && out->Ok_0->expr.source() == expr@
                        && out->Ok_0->next.0 > now.0) || (out is Err && out->Err_0 is NeverFires
                        && out->Err_0->NeverFires_expr@ == cron_normalised(expr@)),
                },
                (Some(secs), None) => out is Ok && out->Ok_0 is At && out->Ok_0->At_0.0 == now.0 + secs * 1000,
                (None, None) => out == Ok::<Schedule, ScheduleError>(Schedule::Now),
            },
    {
        match (in_seconds, cron) {
            (Some(_), Some(_)) => Err(ScheduleError::Both),
            (_, Some(expr)) => {
                let expr = match CronExpr::try_from(expr) {
                    Ok(e) => e,
                    Err(e) => return Err(e),
                };
                let next = expr.next_after(now);
                Schedule::armed(expr, next)
            },
            (Some(secs), None) => Ok(Schedule::At(now.plus(Duration::from_secs(secs)))),
            (None, None) => Ok(Schedule::Now),
        }
    }
}

impl CronExpr {
    /// The same expression again.
    fn copy(&self) -> (out: CronExpr)
        ensures
            out == *self,
    {
        CronExpr { cron: Box::new(clone_cron(&self.cron)), source: self.source.clone() }
    }

    /// The text the expression was parsed from.
    pub closed spec fn source(self) -> Seq<char> {
        self.source@
    }

    /// Parses `expr`; `NotACron` with croner's reason when it refuses it.
    pub fn try_from(expr: &str) -> (out: Result<CronExpr, ScheduleError>)
        ensures
            match cron_refusal(expr@) {
                None => out is Ok && out->Ok_0.source() == expr@,
                Some(why) => out is Err && out->Err_0 is NotACron && out->Err_0->NotACron_expr@ == expr@
                    && out->Err_0->NotACron_why@ == why,
            },
    {
        match parse_cron(expr) {
            Ok(cron) => Ok(CronExpr { cron: Box::new(cron), source: owned(expr) }),
            Err(why) => Err(ScheduleError::NotACron { expr: owned(expr), why }),
        }
    }

    /// First instant this expression matches strictly after `now`, in the
    /// machine's local time; `None` when nothing matches any more.
    pub fn next_after(&self, now: Timestamp) -> (out: Option<Timestamp>)
        ensures
            out matches Some(t) ==> t.0 > now.0,
    {
        match cron_next_after(&self.cron, now.0) {
            Some(t) => Some(Timestamp(t)),
            None => None,
        }
    }

    /// The expression's text, as croner normalised it.
    pub fn to_string(&self) -> (out: String)
        ensures
            out@ == cron_normalised(self.source()),
    {
        cron_text(self)
    }
}

impl ScheduleError {
    /// The sentence this failure reads as.
    pub fn message(&self) -> (out: String)
        ensures
            out@ == schedule_error_message(*self),
    {
        let mut v: Vec<char> = Vec::new();
        match self {
            ScheduleError::Both => {
                push_str(&mut v, "`in_seconds` and `cron` are two different schedules. Give one, not both.");
            },
            ScheduleError::NotACron { expr, why } => {
                v.push('`');
                push_str(&mut v, expr.as_str());
                push_str(&mut v, "` is not a cron expression: ");
                push_str(&mut v, why.as_str());
            },
            ScheduleError::NeverFires { expr } => {
                v.push('`');
                push_str(&mut v, expr.as_str());
                push_str(&mut v, "` never comes round again");
            },
        }
        string_of(&v)
    }
}

/// The sentence a `ScheduleError` reads as.
pub open spec fn schedule_error_message(e: ScheduleError) -> Seq<char> {
    match e {
        ScheduleError::Both => "`in_seconds` and `cron` are two different schedules. Give one, not both."@,
        ScheduleError::NotACron { expr, why } => seq!['`'] + expr@ + "` is not a cron expression: "@ + why@,
        ScheduleError::NeverFires { expr } => seq!['`'] + expr@ + "` never comes round again"@,
    }
}

/// The text that crosses between agents as a task's answer.
pub open spec fn answer_text(title: Seq<char>, state: TaskState) -> Seq<char> {
    let content = match state {
        TaskState::Completed { result, .. } => result_text(result),
        _ => Seq::empty(),
    };
    "Answer to \""@ + title + "\":\n"@ + content
}

impl Task {
    /// Text that crosses between agents as the task's answer: the result for
    /// a completed task, nothing after the heading otherwise.
    pub fn render_answer(&self) -> (out: String)
        ensures
            out@ == answer_text(self.title@, self.state),
    {
        let mut v: Vec<char> = Vec::new();
        push_str(&mut v, "Answer to \"");
        push_str(&mut v, self.title.as_str());
        push_str(&mut v, "\":\n");
        match &self.state {
            TaskState::Completed { result, .. } => push_str(&mut v, result.content()),
            _ => {},
        }
        assert(v@ =~= answer_text(self.title@, self.state));
        string_of(&v)
    }

    /// Notice sent where a result would have gone when cancelled.
    pub fn render_cancelled(&self) -> (out: String)
        ensures
            out@ == "Task \""@ + self.title@ + "\" was cancelled."@,
    {
        let mut v: Vec<char> = Vec::new();
        push_str(&mut v, "Task \"");
        push_str(&mut v, self.title.as_str());
        push_str(&mut v, "\" was cancelled.");
        string_of(&v)
    }
}

} // verus!
