//! What happened: one Event per change the Store makes, and per tool call
//! the registry answers. Watchers follow the stream; the log writes one line
//! per Event. A queued call and a tool's arguments are carried as the text
//! the log shows of them.
use vstd::prelude::*;

use crate::domain::call::CallStatus;
use crate::domain::channel::Utterance;
use crate::domain::ids::{CallId, ChannelId, SessionId, TaskId};
use crate::domain::lesson::Lesson;
use crate::domain::message::Message;
use crate::domain::run::Run;
use crate::domain::session::{Incoming, Reflection, Session, SessionStatus};
use crate::domain::task::{Task, TaskState};
use crate::roles::ToolName;
use crate::scheduler::Tier;

verus! {

/// A model call as it joined the queue.
#[derive(Debug, Clone, PartialEq, Eq)]
pub struct QueuedCall {
    pub id: CallId,
    pub model: String,
    pub tier: Tier,
}

/// One change, as it happened.
#[derive(Debug, Clone, PartialEq)]
pub enum Event {
    RunStarted(Run),
    RunEnded(Run),
    TaskCreated(Task),
    TaskStateChanged { task: TaskId, to: TaskState },
    TaskReArmed { task: TaskId, to: crate::domain::task::Schedule },
    SessionStarted(Session),
    SessionStatusChanged { session: SessionId, to: SessionStatus },
    MessageAppended { session: SessionId, index: usize, message: Message },
    ReflectionRecorded { session: SessionId, reflection: Reflection },
    MailReceived { session: SessionId, incoming: Incoming },
    CallQueued(QueuedCall),
    CallStatusChanged { call: CallId, to: CallStatus },
    ChannelOpened { channel: ChannelId, session: SessionId },
    Said { channel: ChannelId, utterance: Utterance },
    LessonKept(Lesson),
    /// A tool was called; `args` is the JSON text of its arguments.
    ToolCalled { session: SessionId, name: ToolName, args: String },
    ToolReturned { session: SessionId, name: ToolName, output: String },
}

/// The category an Event is logged under.
pub open spec fn category_of(e: Event) -> Seq<char> {
    match e {
        Event::RunStarted(_) | Event::RunEnded(_) => "run"@,
        Event::TaskCreated(_) | Event::TaskStateChanged { .. } | Event::TaskReArmed { .. } => "task"@,
        Event::SessionStarted(_) | Event::SessionStatusChanged { .. } | Event::MessageAppended {
            ..
        } => "session"@,
        Event::ReflectionRecorded { .. } | Event::LessonKept(_) => "meta"@,
        Event::MailReceived { .. } | Event::ChannelOpened { .. } | Event::Said { .. } => "comms"@,
        Event::CallQueued(_) | Event::CallStatusChanged { .. } => "llm"@,
        Event::ToolCalled { .. } | Event::ToolReturned { .. } => "tool"@,
    }
}

impl Event {
    /// The category this Event is logged under.
    pub fn category(&self) -> (out: &'static str)
        ensures
            out@ == category_of(*self),
    {
        match self {
            Event::RunStarted(_) | Event::RunEnded(_) => "run",
            Event::TaskCreated(_) | Event::TaskStateChanged { .. } | Event::TaskReArmed { .. } => "task",
            Event::SessionStarted(_) | Event::SessionStatusChanged { .. } | Event::MessageAppended {
                ..
            } => "session",
            Event::ReflectionRecorded { .. } | Event::LessonKept(_) => "meta",
            Event::MailReceived { .. } | Event::ChannelOpened { .. } | Event::Said { .. } => "comms",
            Event::CallQueued(_) | Event::CallStatusChanged { .. } => "llm",
            Event::ToolCalled { .. } | Event::ToolReturned { .. } => "tool",
        }
    }
}

} // verus!
