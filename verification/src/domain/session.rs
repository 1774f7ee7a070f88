//! The Session: live agent context as data, not loop.
//!
//! Two shapes, one record: `Worker` holds Task and Role and ends with it;
//! `Comms` stands on a Channel with a mailbox and never ends. Reflections keep
//! metacognition for inspection, never in context.
use vstd::prelude::*;

use crate::domain::ids::{CallId, ChannelId, RunId, SessionId, TaskId};
use crate::domain::message::Message;
use crate::domain::time::Timestamp;
use crate::roles::RoleName;
use crate::strings::str_eq;

verus! {

/// One live agent context: transcript, reflections and call history.
#[derive(Debug, Clone, PartialEq, Eq)]
pub struct Session {
    pub id: SessionId,
    pub run: RunId,
    pub kind: SessionKind,
    pub status: SessionStatus,
    /// Transcript, oldest first.
    pub messages: Vec<Message>,
    /// Metacognitions in order, for inspection.
    pub reflections: Vec<Reflection>,
    /// Model calls made, newest last.
    pub calls: Vec<CallId>,
    pub started_at: Timestamp,
    pub ended_at: Option<Timestamp>,
}

/// Which shape this Session is; carries what only that shape has.
#[derive(Debug, Clone, PartialEq, Eq)]
pub enum SessionKind {
    /// Created from a Task; ends with it. Sees only its Brief.
    Worker { task: TaskId, role: RoleName },
    /// Standing on a Channel, one per Channel. Never reviewed, never ends.
    Comms {
        channel: ChannelId,
        /// Unread post. Drains at next Turn, never mid-thinking.
        mailbox: Vec<Incoming>,
    },
}

/// What a Session is doing now.
#[derive(Debug, Clone, PartialEq, Eq)]
pub enum SessionStatus {
    /// A model call is out.
    Thinking,
    /// Running tool calls.
    Tools,
    /// Under metacognition.
    Reflecting,
    /// Worker between Turns.
    Waiting,
    /// Comms between Turns. Workers never idle.
    Idle,
    /// Done: the review submitted an answer.
    Finished,
    /// Stopped unrecoverably; in practice, the model unreachable.
    Failed { reason: String },
    /// Abandoned by a dead Run.
    Cancelled,
}

/// Inputs to start a Session. The Store mints the id.
#[derive(Debug, Clone, PartialEq, Eq)]
pub struct NewSession {
    pub kind: SessionKind,
    pub status: SessionStatus,
    /// Initial transcript: system prompt plus Brief for Workers.
    pub messages: Vec<Message>,
}

/// One piece of post for a Comms Session.
#[derive(Debug, Clone, PartialEq, Eq)]
pub struct Incoming {
    pub from: IncomingFrom,
    pub text: String,
    pub at: Timestamp,
}

/// Who sent post to a Comms Session.
#[derive(Debug, Clone, Copy, PartialEq, Eq, Structural)]
pub enum IncomingFrom {
    Human,
    Swarm,
}

/// One metacognition kept for inspection. Never in Session context.
#[derive(Debug, Clone, PartialEq, Eq)]
pub struct Reflection {
    pub kind: ReflectionKind,
    /// Model call that produced it.
    pub call: CallId,
    /// Message index it ran after.
    pub after_message: usize,
    pub at: Timestamp,
    pub result: ReflectionResult,
}

/// Which metacognition. `Review` may complete the Task; `Interrupt` never may.
#[derive(Debug, Clone, Copy, PartialEq, Eq, Structural)]
pub enum ReflectionKind {
    Review,
    Interrupt,
}

/// What came of one metacognitive call.
#[derive(Debug, Clone, PartialEq, Eq)]
pub enum ReflectionResult {
    Ran { reasoning: Option<String>, content: String, outcome: Outcome },
    /// The call could not be made. Fails open — never wedges a run.
    FailedOpen { error: String },
}

/// Which move a metacognition took.
#[derive(Debug, Clone, PartialEq, Eq)]
pub enum Outcome {
    /// Task answer from review's `<summary>`.
    Complete(String),
    /// Correction injected via `tell`. Takes another Turn.
    Feedback(String),
    /// Nothing actionable. Expected from interrupts.
    Nothing,
}

/// What an interrupt may return. Separate from `Outcome` so `Complete` is unaskable.
#[derive(Debug, Clone, PartialEq, Eq)]
pub enum Nudge {
    Feedback(String),
    Nothing,
}

/// The outcome a nudge stands for.
pub open spec fn nudge_outcome(n: Nudge) -> Outcome {
    match n {
        Nudge::Feedback(t) => Outcome::Feedback(t),
        Nudge::Nothing => Outcome::Nothing,
    }
}

impl Outcome {
    /// The outcome a nudge stands for: never `Complete`.
    pub fn from(n: Nudge) -> (o: Outcome)
        ensures
            o == nudge_outcome(n),
            !(o is Complete),
    {
        match n {
            Nudge::Feedback(text) => Outcome::Feedback(text),
            Nudge::Nothing => Outcome::Nothing,
        }
    }
}

/// The Task a Session holds, if Worker.
pub open spec fn kind_task(k: SessionKind) -> Option<TaskId> {
    match k {
        SessionKind::Worker { task, .. } => Some(task),
        SessionKind::Comms { .. } => None,
    }
}

/// The Channel a Session stands on, if Comms.
pub open spec fn kind_channel(k: SessionKind) -> Option<ChannelId> {
    match k {
        SessionKind::Comms { channel, .. } => Some(channel),
        SessionKind::Worker { .. } => None,
    }
}

/// Whether a status is terminal.
pub open spec fn status_terminal(s: SessionStatus) -> bool {
    s is Finished || s is Failed || s is Cancelled
}

/// The name a status is stored as.
pub open spec fn status_tag(s: SessionStatus) -> Seq<char> {
    match s {
        SessionStatus::Thinking => "thinking"@,
        SessionStatus::Tools => "tools"@,
        SessionStatus::Reflecting => "reflecting"@,
        SessionStatus::Waiting => "waiting"@,
        SessionStatus::Idle => "idle"@,
        SessionStatus::Finished => "finished"@,
        SessionStatus::Failed { .. } => "failed"@,
        SessionStatus::Cancelled => "cancelled"@,
    }
}

impl SessionKind {
    /// Task this Session holds, if Worker.
    pub fn task(&self) -> (t: Option<TaskId>)
        ensures
            t == kind_task(*self),
    {
        match self {
            SessionKind::Worker { task, .. } => Some(*task),
            SessionKind::Comms { .. } => None,
        }
    }

    /// Channel this Session stands on, if Comms.
    pub fn channel(&self) -> (c: Option<ChannelId>)
        ensures
            c == kind_channel(*self),
    {
        match self {
            SessionKind::Comms { channel, .. } => Some(*channel),
            SessionKind::Worker { .. } => None,
        }
    }

    /// Role of this Worker's Task, if Worker.
    pub fn role(&self) -> (r: Option<RoleName>)
        ensures
            r == match *self {
                SessionKind::Worker { role, .. } => Some(role),
                SessionKind::Comms { .. } => None::<RoleName>,
            },
    {
        match self {
            SessionKind::Worker { role, .. } => Some(*role),
            SessionKind::Comms { .. } => None,
        }
    }

    /// The name the kind is stored as: `worker` or `comms`.
    pub fn tag(&self) -> (s: &'static str)
        ensures
            s@ == (if *self is Worker { "worker"@ } else { "comms"@ }),
    {
        match self {
            SessionKind::Worker { .. } => "worker",
            SessionKind::Comms { .. } => "comms",
        }
    }
}

impl SessionStatus {
    /// Whether this status is terminal: no further transitions.
    pub fn is_terminal(&self) -> (b: bool)
        ensures
            b == status_terminal(*self),
    {
        match self {
            SessionStatus::Finished | SessionStatus::Failed { .. } | SessionStatus::Cancelled => true,
            _ => false,
        }
    }

    /// The name the status is stored as.
    pub fn tag(&self) -> (s: &'static str)
        ensures
            s@ == status_tag(*self),
    {
        match self {
            SessionStatus::Thinking => "thinking",
            SessionStatus::Tools => "tools",
            SessionStatus::Reflecting => "reflecting",
            SessionStatus::Waiting => "waiting",
            SessionStatus::Idle => "idle",
            SessionStatus::Finished => "finished",
            SessionStatus::Failed { .. } => "failed",
            SessionStatus::Cancelled => "cancelled",
        }
    }
}

impl IncomingFrom {
    /// The snake_case name.
    pub fn as_str(&self) -> (s: &'static str)
        ensures
            s@ == (if *self == IncomingFrom::Human { "human"@ } else { "swarm"@ }),
    {
        match self {
            IncomingFrom::Human => "human",
            IncomingFrom::Swarm => "swarm",
        }
    }

    /// The sender whose name `s` is, if any.
    pub fn from_str(s: &str) -> (f: Option<IncomingFrom>)
        ensures
            match f {
                Some(IncomingFrom::Human) => s@ == "human"@,
                Some(IncomingFrom::Swarm) => s@ == "swarm"@,
                None => s@ != "human"@ && s@ != "swarm"@,
            },
    {
        if str_eq(s, "human") {
            Some(IncomingFrom::Human)
        } else if str_eq(s, "swarm") {
            Some(IncomingFrom::Swarm)
        } else {
            None
        }
    }
}

impl ReflectionKind {
    /// The snake_case name.
    pub fn as_str(&self) -> (s: &'static str)
        ensures
            s@ == (if *self == ReflectionKind::Review { "review"@ } else { "interrupt"@ }),
    {
        match self {
            ReflectionKind::Review => "review",
            ReflectionKind::Interrupt => "interrupt",
        }
    }

    /// The kind whose name `s` is, if any.
    pub fn from_str(s: &str) -> (k: Option<ReflectionKind>)
        ensures
            match k {
                Some(ReflectionKind::Review) => s@ == "review"@,
                Some(ReflectionKind::Interrupt) => s@ == "interrupt"@,
                None => s@ != "review"@ && s@ != "interrupt"@,
            },
    {
        if str_eq(s, "review") {
            Some(ReflectionKind::Review)
        } else if str_eq(s, "interrupt") {
            Some(ReflectionKind::Interrupt)
        } else {
            None
        }
    }
}

impl ReflectionResult {
    /// The name the result is stored as: `ran` or `failed_open`.
    pub fn tag(&self) -> (s: &'static str)
        ensures
            s@ == (if *self is Ran { "ran"@ } else { "failed_open"@ }),
    {
        match self {
            ReflectionResult::Ran { .. } => "ran",
            ReflectionResult::FailedOpen { .. } => "failed_open",
        }
    }
}

} // verus!
