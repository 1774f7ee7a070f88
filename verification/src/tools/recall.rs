//! Memory tools: search the lessons metacognition kept, search past Tasks by
//! what they asked for, and read one Session's whole conversation. The
//! ranking by meaning happens with the caller; what the model reads of the
//! hits, and which Session a request names, is decided here.
use vstd::prelude::*;

use crate::domain::ids::{id_parse, id_text, SessionId, TaskId};
use crate::domain::lesson::{subject_line, Lesson};
use crate::domain::message::{rendered, Message};
use crate::domain::session::{Reflection, ReflectionKind, ReflectionResult, Session};
use crate::domain::task::{result_text, Task, TaskState};
use crate::strings::{join, join_chars, owned, push_chars, push_str, string_of, views};
use crate::tools::ToolError;

verus! {

/// How many hits a search returns when the caller does not say.
pub const DEFAULT_HITS: usize = 5;

/// How many characters of a Session `view_session` shows.
pub const VIEW_SESSION_CAP: usize = 40_000;

/// A search's query and how many hits it asks for: the query is required;
/// the count defaults to five.
pub fn search_args(query: Option<String>, count: Option<u64>) -> (out: Result<(String, usize), ToolError>)
    ensures
        match query {
            None => out == Err::<(String, usize), ToolError>(ToolError::Missing { field: "query" }),
            Some(q) => out is Ok && out->Ok_0.0 == q && out->Ok_0.1 == (match count {
                Some(n) => n as usize,
                None => DEFAULT_HITS,
            }),
        },
{
    match query {
        None => Err(ToolError::Missing { field: "query" }),
        Some(q) => {
            let n = match count {
                Some(n) => n as usize,
                None => DEFAULT_HITS,
            };
            Ok((q, n))
        },
    }
}

/// How one lesson hit reads: when and about what, the lesson, and where to
/// read the whole conversation.
pub open spec fn lesson_entry(l: Lesson) -> Seq<char> {
    l.day@ + " — "@ + subject_line(l.about) + "\n"@ + l.text@ + "\n(see "@ + id_text("s"@, l.session.0)
        + " for the full conversation)"@
}

/// What the model reads of lesson hits, best first.
pub open spec fn lesson_hits_text(lessons: Seq<Lesson>) -> Seq<char> {
    if lessons.len() == 0 {
        "No lessons match."@
    } else {
        join(Seq::new(lessons.len(), |i: int| lesson_entry(lessons[i])), "\n\n"@)
    }
}

/// Words lesson hits, best first, for the model.
pub fn render_lesson_hits(lessons: &Vec<Lesson>) -> (out: String)
    ensures
        out@ == lesson_hits_text(lessons@),
{
    if lessons.len() == 0 {
        return owned("No lessons match.");
    }
    let mut parts: Vec<Vec<char>> = Vec::new();
    let mut i: usize = 0;
    while i < lessons.len()
        invariant
            i <= lessons.len(),
            parts.len() == i,
            forall|k: int| 0 <= k < i ==> #[trigger] parts@[k]@ == lesson_entry(lessons@[k]),
        decreases lessons.len() - i,
    {
        let l = &lessons[i];
        let mut e: Vec<char> = Vec::new();
        push_str(&mut e, l.day.as_str());
        push_str(&mut e, " — ");
        let about = l.about.describe();
        push_str(&mut e, about.as_str());
        push_str(&mut e, "\n");
        push_str(&mut e, l.text.as_str());
        push_str(&mut e, "\n(see ");
        let s = l.session.to_string();
        push_str(&mut e, s.as_str());
        push_str(&mut e, " for the full conversation)");
        parts.push(e);
        i = i + 1;
    }
    assert(views(parts@) =~= Seq::new(lessons@.len(), |k: int| lesson_entry(lessons@[k])));
    let joined = join_chars(&parts, "\n\n");
    string_of(&joined)
}

/// What a task hit shows of where the Task got to.
pub open spec fn task_outcome(state: TaskState) -> Seq<char> {
    match state {
        TaskState::Completed { result, .. } => result_text(result),
        TaskState::Cancelled { .. } => "Cancelled; no answer."@,
        TaskState::Pending => "Still pending."@,
        TaskState::Running { .. } => "Still running."@,
    }
}

/// How one task hit reads: id and title, then its answer or where it is.
pub open spec fn task_entry(t: Task) -> Seq<char> {
    id_text("t"@, t.id.0) + " — "@ + t.title@ + "\n"@ + task_outcome(t.state)
}

/// What the model reads of task hits, best first.
pub open spec fn task_hits_text(tasks: Seq<Task>) -> Seq<char> {
    if tasks.len() == 0 {
        "No Tasks match."@
    } else {
        join(Seq::new(tasks.len(), |i: int| task_entry(tasks[i])), "\n\n"@)
    }
}

/// Words task hits, best first, for the model.
pub fn render_task_hits(tasks: &Vec<Task>) -> (out: String)
    ensures
        out@ == task_hits_text(tasks@),
{
    if tasks.len() == 0 {
        return owned("No Tasks match.");
    }
    let mut parts: Vec<Vec<char>> = Vec::new();
    let mut i: usize = 0;
    while i < tasks.len()
        invariant
            i <= tasks.len(),
            parts.len() == i,
            forall|k: int| 0 <= k < i ==> #[trigger] parts@[k]@ == task_entry(tasks@[k]),
        decreases tasks.len() - i,
    {
        let t = &tasks[i];
        let mut e: Vec<char> = Vec::new();
        let id = t.id.to_string();
        push_str(&mut e, id.as_str());
        push_str(&mut e, " — ");
        push_str(&mut e, t.title.as_str());
        push_str(&mut e, "\n");
        match &t.state {
            TaskState::Completed { result, .. } => push_str(&mut e, result.content()),
            TaskState::Cancelled { .. } => push_str(&mut e, "Cancelled; no answer."),
            TaskState::Pending => push_str(&mut e, "Still pending."),
            TaskState::Running { .. } => push_str(&mut e, "Still running."),
        }
        parts.push(e);
        i = i + 1;
    }
    assert(views(parts@) =~= Seq::new(tasks@.len(), |k: int| task_entry(tasks@[k])));
    let joined = join_chars(&parts, "\n\n");
    string_of(&joined)
}

/// What a search hit on a Task is searched by: its title and brief.
pub fn task_search_text(t: &Task) -> (out: String)
    ensures
        out@ == t.title@ + "\n"@ + t.brief@,
{
    let mut v: Vec<char> = Vec::new();
    push_str(&mut v, t.title.as_str());
    push_str(&mut v, "\n");
    push_str(&mut v, t.brief.as_str());
    string_of(&v)
}

/// The name a metacognition's kind is shown under.
pub open spec fn kind_name(k: ReflectionKind) -> Seq<char> {
    match k {
        ReflectionKind::Review => "Review"@,
        ReflectionKind::Interrupt => "Interrupt"@,
    }
}

/// A transcript as a reader sees it: each message rendered, followed by a
/// blank line.
pub open spec fn transcript_text(ms: Seq<Message>) -> Seq<char>
    decreases ms.len(),
{
    if ms.len() == 0 {
        Seq::empty()
    } else {
        transcript_text(ms.drop_last()) + rendered(ms.last()) + "\n\n"@
    }
}

/// How one metacognition reads: its kind, then what it said or why it
/// failed open.
pub open spec fn reflection_entry(r: Reflection) -> Seq<char> {
    match r.result {
        ReflectionResult::Ran { content, .. } => seq!['['] + kind_name(r.kind) + "] "@ + content@ + "\n\n"@,
        ReflectionResult::FailedOpen { error } => seq!['['] + kind_name(r.kind) + "] failed open: "@
            + error@ + "\n\n"@,
    }
}

/// The metacognitions, one after the other.
pub open spec fn reflections_text(rs: Seq<Reflection>) -> Seq<char>
    decreases rs.len(),
{
    if rs.len() == 0 {
        Seq::empty()
    } else {
        reflections_text(rs.drop_last()) + reflection_entry(rs.last())
    }
}

/// A Session as `view_session` shows it, before the cap: the transcript,
/// then its metacognitions under a heading where there are any.
pub open spec fn session_full(s: Session) -> Seq<char> {
    transcript_text(s.messages@) + if s.reflections@.len() == 0 {
        Seq::empty()
    } else {
        "--- metacognition ---\n"@ + reflections_text(s.reflections@)
    }
}

/// What marks a Session as cut.
pub const TRUNCATION_NOTE: &'static str = "\n... (truncated)";

/// A text kept to `cap` characters in all: where it is longer, as much of it
/// as leaves room for the note that marks it as cut, then the note.
pub open spec fn capped(t: Seq<char>, cap: nat) -> Seq<char> {
    if t.len() > cap {
        t.take(cap - TRUNCATION_NOTE@.len()) + TRUNCATION_NOTE@
    } else {
        t
    }
}

/// Shows a whole Session for the model: transcript, then metacognitions,
/// at most `VIEW_SESSION_CAP` characters in all, the cut marked.
pub fn render_session(session: &Session) -> (out: String)
    ensures
        out@ == capped(session_full(*session), VIEW_SESSION_CAP as nat),
        out@.len() <= VIEW_SESSION_CAP,
{
    proof {
        reveal_strlit("\n... (truncated)");
    }
    let mut v: Vec<char> = Vec::new();
    let mut i: usize = 0;
    while i < session.messages.len()
        invariant
            i <= session.messages.len(),
            v@ == transcript_text(session.messages@.take(i as int)),
        decreases session.messages.len() - i,
    {
        assert(session.messages@.take(i + 1).drop_last() =~= session.messages@.take(i as int));
        let r = session.messages[i].render();
        push_str(&mut v, r.as_str());
        push_str(&mut v, "\n\n");
        i = i + 1;
    }
    assert(session.messages@.take(session.messages.len() as int) =~= session.messages@);
    if session.reflections.len() > 0 {
        push_str(&mut v, "--- metacognition ---\n");
        let ghost head = v@;
        let mut k: usize = 0;
        while k < session.reflections.len()
            invariant
                k <= session.reflections.len(),
                v@ == head + reflections_text(session.reflections@.take(k as int)),
            decreases session.reflections.len() - k,
        {
            assert(session.reflections@.take(k + 1).drop_last() =~= session.reflections@.take(k as int));
            let r = &session.reflections[k];
            v.push('[');
            match r.kind {
                ReflectionKind::Review => push_str(&mut v, "Review"),
                ReflectionKind::Interrupt => push_str(&mut v, "Interrupt"),
            }
            match &r.result {
                ReflectionResult::Ran { content, .. } => {
                    push_str(&mut v, "] ");
                    push_str(&mut v, content.as_str());
                },
                ReflectionResult::FailedOpen { error } => {
                    push_str(&mut v, "] failed open: ");
                    push_str(&mut v, error.as_str());
                },
            }
            push_str(&mut v, "\n\n");
            assert(v@ =~= head + reflections_text(session.reflections@.take(k + 1)));
            k = k + 1;
        }
        assert(session.reflections@.take(session.reflections.len() as int) =~= session.reflections@);
    }
    if v.len() > VIEW_SESSION_CAP {
        let keep: usize = VIEW_SESSION_CAP - 16;
        let mut cut: Vec<char> = Vec::new();
        let mut j: usize = 0;
        while j < keep
            invariant
                keep == VIEW_SESSION_CAP - 16,
                j <= keep < v.len(),
                cut@ =~= v@.take(j as int),
            decreases keep - j,
        {
            cut.push(v[j]);
            j = j + 1;
        }
        push_str(&mut cut, TRUNCATION_NOTE);
        return string_of(&cut);
    }
    string_of(&v)
}

/// Which Session `view_session` is asked for.
#[derive(Debug, Clone, Copy, PartialEq, Eq, Structural)]
pub enum SessionTarget {
    /// By its own id.
    Session(SessionId),
    /// The Session that ran the Task with this id.
    RanTask(TaskId),
}

/// Reads `view_session`'s arguments: a Session id takes precedence over a
/// Task id; one of them is required.
pub fn session_target(session_id: Option<String>, task_id: Option<String>) -> (out: Result<SessionTarget, ToolError>)
    ensures
        match session_id {
            Some(s) => match id_parse("s"@, s@) {
                Some(n) => out == Ok::<SessionTarget, ToolError>(SessionTarget::Session(SessionId(n))),
                None => out is Err && (out->Err_0 matches ToolError::Rejected(why) && why@ == seq!['`']
                    + s@ + "` is not a Session id."@),
            },
            None => match task_id {
                Some(t) => match id_parse("t"@, t@) {
                    Some(n) => out == Ok::<SessionTarget, ToolError>(SessionTarget::RanTask(TaskId(n))),
                    None => out == Err::<SessionTarget, ToolError>(ToolError::NoSuchTask(t)),
                },
                None => out is Err && (out->Err_0 matches ToolError::Rejected(why) && why@
                    == "Give either session_id or task_id."@),
            },
        },
{
    match session_id {
        Some(s) => match SessionId::from_str(s.as_str()) {
            Ok(id) => Ok(SessionTarget::Session(id)),
            Err(_) => {
                let mut v: Vec<char> = Vec::new();
                v.push('`');
                push_str(&mut v, s.as_str());
                push_str(&mut v, "` is not a Session id.");
                Err(ToolError::Rejected(string_of(&v)))
            },
        },
        None => match task_id {
            Some(t) => match TaskId::from_str(t.as_str()) {
                Ok(id) => Ok(SessionTarget::RanTask(id)),
                Err(_) => Err(ToolError::NoSuchTask(t)),
            },
            None => Err(ToolError::Rejected(owned("Give either session_id or task_id."))),
        },
    }
}

/// What the model reads when no Session ever ran a Task.
pub fn never_ran(task: TaskId) -> (out: String)
    ensures
        out@ == "No Session ever ran "@ + id_text("t"@, task.0) + "."@,
{
    let mut v: Vec<char> = Vec::new();
    push_str(&mut v, "No Session ever ran ");
    let t = task.to_string();
    push_str(&mut v, t.as_str());
    push_str(&mut v, ".");
    string_of(&v)
}

/// The refusal for a Session id that names no Session.
pub fn no_such_session(id: SessionId) -> (out: ToolError)
    ensures
        out matches ToolError::Rejected(why) && why@ == "There is no Session "@ + id_text("s"@, id.0)
            + "."@,
{
    let mut v: Vec<char> = Vec::new();
    push_str(&mut v, "There is no Session ");
    let s = id.to_string();
    push_str(&mut v, s.as_str());
    push_str(&mut v, ".");
    ToolError::Rejected(string_of(&v))
}

} // verus!
