//! What metacognition kept: a `<lessons>` section that outlives the Session
//! judged, found later by meaning.
use vstd::prelude::*;

use crate::domain::ids::{id_text, ChannelId, LessonId, RunId, SessionId, TaskId};
use crate::domain::text::{Day, Title};
use crate::domain::time::Timestamp;
use crate::roles::{role_text, RoleName};
use crate::strings::{push_str, string_of};

verus! {

/// One thing metacognition thought was worth keeping.
#[derive(Debug, Clone, PartialEq, Eq)]
pub struct Lesson {
    pub id: LessonId,
    /// The Run it was written in: recorded, never a filter.
    pub run: RunId,
    /// The bullets the metacognition wrote. This, and only this, is searched.
    pub text: String,
    pub day: Day,
    /// The Session that was judged.
    pub session: SessionId,
    pub about: LessonSubject,
    pub at: Timestamp,
}

/// What a lesson is about, so a search hit can be placed without a second lookup.
#[derive(Debug, Clone, PartialEq, Eq)]
pub enum LessonSubject {
    /// From a Worker Session: the work it was doing.
    Task { task: TaskId, role: RoleName, title: Title },
    /// From a Comms Session: the conversation on its Channel.
    Conversation { channel: ChannelId },
}

/// Everything needed to keep a lesson. The Store mints the id.
#[derive(Debug, Clone, PartialEq, Eq)]
pub struct NewLesson {
    pub text: String,
    pub session: SessionId,
    pub about: LessonSubject,
}

/// One line naming what a lesson is about.
pub open spec fn subject_line(s: LessonSubject) -> Seq<char> {
    match s {
        LessonSubject::Task { task, role, title } => title@ + " ("@ + role_text(role) + ", "@ + id_text(
            "t"@,
            task.0,
        ) + ")"@,
        LessonSubject::Conversation { channel } => "conversation on "@ + id_text("ch"@, channel.0),
    }
}

/// The name a lesson subject's kind is stored as.
pub open spec fn subject_tag(s: LessonSubject) -> Seq<char> {
    match s {
        LessonSubject::Task { .. } => "task"@,
        LessonSubject::Conversation { .. } => "conversation"@,
    }
}

impl LessonSubject {
    /// One line naming what this lesson is about, for a search hit:
    /// `title (role, t-nn)` or `conversation on ch-nn`.
    pub fn describe(&self) -> (out: String)
        ensures
            out@ == subject_line(*self),
    {
        let mut v: Vec<char> = Vec::new();
        match self {
            LessonSubject::Task { task, role, title } => {
                push_str(&mut v, title.as_str());
                push_str(&mut v, " (");
                push_str(&mut v, role.as_str());
                push_str(&mut v, ", ");
                let t = task.to_string();
                push_str(&mut v, t.as_str());
                push_str(&mut v, ")");
            },
            LessonSubject::Conversation { channel } => {
                push_str(&mut v, "conversation on ");
                let c = channel.to_string();
                push_str(&mut v, c.as_str());
            },
        }
        assert(v@ =~= subject_line(*self));
        string_of(&v)
    }

    /// The name the subject's kind is stored as.
    pub fn tag(&self) -> (s: &'static str)
        ensures
            s@ == subject_tag(*self),
    {
        match self {
            LessonSubject::Task { .. } => "task",
            LessonSubject::Conversation { .. } => "conversation",
        }
    }
}

} // verus!
