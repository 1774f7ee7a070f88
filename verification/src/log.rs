//! The run log's wording: one line per Event, `time category text`, with
//! bodies quoted in full when verbose and cut to a snippet when terse. The
//! file, the clock and the broadcast of lines are the caller's.
use vstd::prelude::*;

use crate::domain::call::call_status_tag;
use crate::domain::channel::Who;
use crate::domain::ids::id_text;
use crate::domain::lesson::subject_line;
use crate::domain::message::{described, AssistantBody, Message};
use crate::domain::session::{status_tag, IncomingFrom, ReflectionKind, ReflectionResult, SessionKind};
use crate::domain::task::{schedule_not_before, state_name, state_name_text};
use crate::domain::time::Timestamp;
use crate::event::Event;
use crate::roles::{role_text, tool_text};
use crate::scheduler::Tier;
use crate::strings::{
    char_count, decimal, decimal_chars, push_chars, push_str, signed_decimal, signed_decimal_chars,
    string_of, take_chars,
};

verus! {

/// How much of each body the log shows.
#[derive(Debug, Clone, Copy, PartialEq, Eq, Structural)]
pub enum Verbosity {
    /// A quoted snippet and the length.
    Terse,
    /// The whole body, quoted.
    Verbose,
}

impl Default for Verbosity {
    fn default() -> (v: Verbosity)
        ensures
            v == Verbosity::Terse,
    {
        Verbosity::Terse
    }
}

/// Whether log lines are also printed.
#[derive(Debug, Clone, Copy, PartialEq, Eq, Structural)]
pub enum Echo {
    Quiet,
    Stdout,
}

impl Default for Echo {
    fn default() -> (e: Echo)
        ensures
            e == Echo::Quiet,
    {
        Echo::Quiet
    }
}

/// What `{:?}` makes of a string: quoted, with quotes, backslashes and
/// control characters escaped as Rust's `str::escape_debug` writes them.
pub uninterp spec fn debug_quoted(s: Seq<char>) -> Seq<char>;

/// Formats `s` with `{:?}`: the string quoted and escaped by std's `Debug`
/// for `str`. The result is named `debug_quoted`, a function of `s` alone.
#[verifier::external_body]
fn quoted(s: &str) -> (out: String)
    ensures
        out@ == debug_quoted(s@),
{
    format!("{s:?}")
}

/// How many characters of a body a terse line shows.
pub const SNIPPET: usize = 60;

/// A body as a terse line shows it: quoted whole with its length where it
/// is short; otherwise its first characters quoted, an ellipsis, and the
/// length.
pub open spec fn elided(text: Seq<char>) -> Seq<char> {
    if text.len() <= SNIPPET {
        debug_quoted(text) + " ("@ + decimal(text.len()) + " chars)"@
    } else {
        debug_quoted(text.take(SNIPPET as int)) + "… ("@ + decimal(text.len()) + " chars)"@
    }
}

/// Cuts a body to a quoted snippet and its length.
pub fn elide(text: &str) -> (out: String)
    ensures
        out@ == elided(text@),
{
    let len = char_count(text);
    let mut v: Vec<char> = Vec::new();
    if len <= SNIPPET {
        let q = quoted(text);
        push_str(&mut v, q.as_str());
        push_str(&mut v, " (");
    } else {
        let snippet = take_chars(text, SNIPPET);
        let q = quoted(snippet.as_str());
        push_str(&mut v, q.as_str());
        push_str(&mut v, "… (");
    }
    let d = decimal_chars(len as u64);
    push_chars(&mut v, &d);
    push_str(&mut v, " chars)");
    string_of(&v)
}

/// A body as the log shows it at this verbosity.
pub open spec fn body_text(verbosity: Verbosity, text: Seq<char>) -> Seq<char> {
    match verbosity {
        Verbosity::Terse => elided(text),
        Verbosity::Verbose => debug_quoted(text),
    }
}

/// Shows a body at this verbosity.
pub fn body(verbosity: Verbosity, text: &str) -> (out: String)
    ensures
        out@ == body_text(verbosity, text@),
{
    match verbosity {
        Verbosity::Terse => elide(text),
        Verbosity::Verbose => quoted(text),
    }
}

/// The text a message carries, as the log shows it: a tool call's preamble,
/// or nothing.
pub open spec fn message_body(m: Message) -> Seq<char> {
    match m {
        Message::System { content } => content@,
        Message::User { content } => content@,
        Message::Assistant { body, .. } => match body {
            AssistantBody::Text(t) => t@,
            AssistantBody::Calls { preamble, .. } => match preamble {
                Some(p) => p@,
                None => Seq::empty(),
            },
        },
        Message::Tool { content, .. } => content@,
    }
}

/// The text a message carries.
pub fn message_text(message: &Message) -> (out: &str)
    ensures
        out@ == message_body(*message),
{
    match message {
        Message::System { content } => content.as_str(),
        Message::User { content } => content.as_str(),
        Message::Assistant { body, .. } => match body {
            AssistantBody::Text(t) => t.as_str(),
            AssistantBody::Calls { preamble, .. } => match preamble {
                Some(p) => p.as_str(),
                None => {
                    proof {
                        reveal_strlit("");
                    }
                    ""
                },
            },
        },
        Message::Tool { content, .. } => content.as_str(),
    }
}

/// The text a metacognition left: what it said, or why it failed open.
pub open spec fn reflection_body(r: ReflectionResult) -> Seq<char> {
    match r {
        ReflectionResult::Ran { content, .. } => content@,
        ReflectionResult::FailedOpen { error } => error@,
    }
}

/// The text a metacognition left.
pub fn reflection_text(result: &ReflectionResult) -> (out: &str)
    ensures
        out@ == reflection_body(*result),
{
    match result {
        ReflectionResult::Ran { content, .. } => content.as_str(),
        ReflectionResult::FailedOpen { error } => error.as_str(),
    }
}

/// The names `{:?}` gives the small enums the log shows.
pub open spec fn reflection_kind_debug(k: ReflectionKind) -> Seq<char> {
    match k {
        ReflectionKind::Review => "Review"@,
        ReflectionKind::Interrupt => "Interrupt"@,
    }
}

pub open spec fn from_debug(f: IncomingFrom) -> Seq<char> {
    match f {
        IncomingFrom::Human => "Human"@,
        IncomingFrom::Swarm => "Swarm"@,
    }
}

pub open spec fn who_debug(w: Who) -> Seq<char> {
    match w {
        Who::Human => "Human"@,
        Who::Sandman => "Sandman"@,
    }
}

pub open spec fn tier_debug(t: Tier) -> Seq<char> {
    match t {
        Tier::Comms => "Comms"@,
        Tier::TaskHigh => "TaskHigh"@,
        Tier::Metacognition => "Metacognition"@,
        Tier::TaskNormal => "TaskNormal"@,
        Tier::TaskLow => "TaskLow"@,
    }
}

/// `{:?}` of an optional instant.
pub open spec fn instant_debug(t: Option<Timestamp>) -> Seq<char> {
    match t {
        Some(ts) => "Some(Timestamp("@ + signed_decimal(ts.0 as int) + "))"@,
        None => "None"@,
    }
}

/// A session kind's name: `worker` or `comms`.
pub open spec fn kind_tag(k: SessionKind) -> Seq<char> {
    if k is Worker {
        "worker"@
    } else {
        "comms"@
    }
}

/// What the log says of an Event, after its time and category.
pub open spec fn event_text(v: Verbosity, e: Event) -> Seq<char> {
    match e {
        Event::RunStarted(run) => id_text("run"@, run.id.0) + " started, model "@ + run.model@,
        Event::RunEnded(run) => id_text("run"@, run.id.0) + " ended"@,
        Event::TaskCreated(task) => id_text("t"@, task.id.0) + " created \""@ + task.title@
            + "\", role "@ + role_text(task.role) + ", brief "@ + body_text(v, task.brief@),
        Event::TaskStateChanged { task, to } => id_text("t"@, task.0) + " -> "@ + state_name_text(
            state_name(to),
        ),
        Event::TaskReArmed { task, to } => id_text("t"@, task.0) + " re-armed, next "@ + instant_debug(
            schedule_not_before(to),
        ),
        Event::SessionStarted(session) => id_text("s"@, session.id.0) + " started, "@ + kind_tag(
            session.kind,
        ),
        Event::SessionStatusChanged { session, to } => id_text("s"@, session.0) + " -> "@ + status_tag(
            to,
        ),
        Event::MessageAppended { session, index, message } => id_text("s"@, session.0) + " #"@
            + decimal(index as nat) + " "@ + described(message) + " "@ + body_text(
            v,
            message_body(message),
        ),
        Event::ReflectionRecorded { session, reflection } => id_text("s"@, session.0) + " "@
            + reflection_kind_debug(reflection.kind) + " after #"@ + decimal(
            reflection.after_message as nat,
        ) + " "@ + body_text(v, reflection_body(reflection.result)),
        Event::MailReceived { session, incoming } => id_text("s"@, session.0) + " mail from "@
            + from_debug(incoming.from) + " "@ + body_text(v, incoming.text@),
        Event::CallQueued(call) => id_text("call"@, call.id.0) + " queued, model "@ + call.model@
            + ", tier "@ + tier_debug(call.tier),
        Event::CallStatusChanged { call, to } => id_text("call"@, call.0) + " -> "@ + call_status_tag(
            to,
        ),
        Event::ChannelOpened { channel, session } => id_text("ch"@, channel.0) + " opened for "@
            + id_text("s"@, session.0),
        Event::Said { channel, utterance } => id_text("ch"@, channel.0) + " "@ + who_debug(
            utterance.who,
        ) + " "@ + body_text(v, utterance.text@),
        Event::LessonKept(lesson) => id_text("l"@, lesson.id.0) + " kept, about "@ + subject_line(
            lesson.about,
        ) + " "@ + body_text(v, lesson.text@),
        Event::ToolCalled { session, name, args } => id_text("s"@, session.0) + " called "@
            + tool_text(name) + " "@ + body_text(v, args@),
        Event::ToolReturned { session, name, output } => id_text("s"@, session.0) + " "@ + tool_text(
            name,
        ) + " returned "@ + body_text(v, output@),
    }
}

/// Words an Event for the log.
pub fn render(verbosity: Verbosity, event: &Event) -> (out: String)
    ensures
        out@ == event_text(verbosity, *event),
{
    let mut v: Vec<char> = Vec::new();
    match event {
        Event::RunStarted(run) => {
            push_str(&mut v, run.id.to_string().as_str());
            push_str(&mut v, " started, model ");
            push_str(&mut v, run.model.as_str());
        },
        Event::RunEnded(run) => {
            push_str(&mut v, run.id.to_string().as_str());
            push_str(&mut v, " ended");
        },
        Event::TaskCreated(task) => {
            push_str(&mut v, task.id.to_string().as_str());
            push_str(&mut v, " created \"");
            push_str(&mut v, task.title.as_str());
            push_str(&mut v, "\", role ");
            push_str(&mut v, task.role.as_str());
            push_str(&mut v, ", brief ");
            push_str(&mut v, body(verbosity, task.brief.as_str()).as_str());
        },
        Event::TaskStateChanged { task, to } => {
            push_str(&mut v, task.to_string().as_str());
            push_str(&mut v, " -> ");
            push_str(&mut v, to.name().as_str());
        },
        Event::TaskReArmed { task, to } => {
            push_str(&mut v, task.to_string().as_str());
            push_str(&mut v, " re-armed, next ");
            match to.not_before() {
                Some(ts) => {
                    push_str(&mut v, "Some(Timestamp(");
                    let d = signed_decimal_chars(ts.0);
                    push_chars(&mut v, &d);
                    push_str(&mut v, "))");
                },
                None => push_str(&mut v, "None"),
            }
        },
        Event::SessionStarted(session) => {
            push_str(&mut v, session.id.to_string().as_str());
            push_str(&mut v, " started, ");
            push_str(&mut v, session.kind.tag());
        },
        Event::SessionStatusChanged { session, to } => {
            push_str(&mut v, session.to_string().as_str());
            push_str(&mut v, " -> ");
            push_str(&mut v, to.tag());
        },
        Event::MessageAppended { session, index, message } => {
            push_str(&mut v, session.to_string().as_str());
            push_str(&mut v, " #");
            let d = decimal_chars(*index as u64);
            push_chars(&mut v, &d);
            push_str(&mut v, " ");
            push_str(&mut v, message.describe().as_str());
            push_str(&mut v, " ");
            push_str(&mut v, body(verbosity, message_text(message)).as_str());
        },
        Event::ReflectionRecorded { session, reflection } => {
            push_str(&mut v, session.to_string().as_str());
            push_str(&mut v, " ");
            match reflection.kind {
                ReflectionKind::Review => push_str(&mut v, "Review"),
                ReflectionKind::Interrupt => push_str(&mut v, "Interrupt"),
            }
            push_str(&mut v, " after #");
            let d = decimal_chars(reflection.after_message as u64);
            push_chars(&mut v, &d);
            push_str(&mut v, " ");
            push_str(&mut v, body(verbosity, reflection_text(&reflection.result)).as_str());
        },
        Event::MailReceived { session, incoming } => {
            push_str(&mut v, session.to_string().as_str());
            push_str(&mut v, " mail from ");
            match incoming.from {
                IncomingFrom::Human => push_str(&mut v, "Human"),
                IncomingFrom::Swarm => push_str(&mut v, "Swarm"),
            }
            push_str(&mut v, " ");
            push_str(&mut v, body(verbosity, incoming.text.as_str()).as_str());
        },
        Event::CallQueued(call) => {
            push_str(&mut v, call.id.to_string().as_str());
            push_str(&mut v, " queued, model ");
            push_str(&mut v, call.model.as_str());
            push_str(&mut v, ", tier ");
            match call.tier {
                Tier::Comms => push_str(&mut v, "Comms"),
                Tier::TaskHigh => push_str(&mut v, "TaskHigh"),
                Tier::Metacognition => push_str(&mut v, "Metacognition"),
                Tier::TaskNormal => push_str(&mut v, "TaskNormal"),
                Tier::TaskLow => push_str(&mut v, "TaskLow"),
            }
        },
        Event::CallStatusChanged { call, to } => {
            push_str(&mut v, call.to_string().as_str());
            push_str(&mut v, " -> ");
            push_str(&mut v, to.tag());
        },
        Event::ChannelOpened { channel, session } => {
            push_str(&mut v, channel.to_string().as_str());
            push_str(&mut v, " opened for ");
            push_str(&mut v, session.to_string().as_str());
        },
        Event::Said { channel, utterance } => {
            push_str(&mut v, channel.to_string().as_str());
            push_str(&mut v, " ");
            match utterance.who {
                Who::Human => push_str(&mut v, "Human"),
                Who::Sandman => push_str(&mut v, "Sandman"),
            }
            push_str(&mut v, " ");
            push_str(&mut v, body(verbosity, utterance.text.as_str()).as_str());
        },
        Event::LessonKept(lesson) => {
            push_str(&mut v, lesson.id.to_string().as_str());
            push_str(&mut v, " kept, about ");
            push_str(&mut v, lesson.about.describe().as_str());
            push_str(&mut v, " ");
            push_str(&mut v, body(verbosity, lesson.text.as_str()).as_str());
        },
        Event::ToolCalled { session, name, args } => {
            push_str(&mut v, session.to_string().as_str());
            push_str(&mut v, " called ");
            push_str(&mut v, name.as_str());
            push_str(&mut v, " ");
            push_str(&mut v, body(verbosity, args.as_str()).as_str());
        },
        Event::ToolReturned { session, name, output } => {
            push_str(&mut v, session.to_string().as_str());
            push_str(&mut v, " ");
            push_str(&mut v, name.as_str());
            push_str(&mut v, " returned ");
            push_str(&mut v, body(verbosity, output.as_str()).as_str());
        },
    }
    assert(v@ =~= event_text(verbosity, *event));
    string_of(&v)
}

/// A log line: the time, the category padded to seven columns, the text.
pub open spec fn line_text(time: Seq<char>, category: Seq<char>, text: Seq<char>) -> Seq<char> {
    time + " "@ + category + Seq::new(
        if category.len() < 7 {
            (7 - category.len()) as nat
        } else {
            0
        },
        |i: int| ' ',
    ) + " "@ + text
}

/// Lays out one log line.
pub fn line(time: &str, category: &str, text: &str) -> (out: String)
    ensures
        out@ == line_text(time@, category@, text@),
{
    let mut v: Vec<char> = Vec::new();
    push_str(&mut v, time);
    push_str(&mut v, " ");
    push_str(&mut v, category);
    let n = char_count(category);
    let ghost head = v@;
    let mut k: usize = n;
    while k < 7
        invariant
            n <= k,
            n < 7 ==> k <= 7,
            n >= 7 ==> k == n,
            v@ =~= head + Seq::new((k - n) as nat, |i: int| ' '),
        decreases 7 - k,
    {
        v.push(' ');
        k = k + 1;
    }
    let ghost pad: nat = if category@.len() < 7 {
        (7 - category@.len()) as nat
    } else {
        0
    };
    assert((k - n) as nat == pad);
    assert(head =~= time@ + " "@ + category@);
    assert(Seq::new((k - n) as nat, |i: int| ' ') =~= Seq::new(pad, |i: int| ' '));
    assert(v@ =~= time@ + " "@ + category@ + Seq::new(pad, |i: int| ' '));
    push_str(&mut v, " ");
    push_str(&mut v, text);
    string_of(&v)
}

} // verus!
