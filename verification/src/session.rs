//! The Turn loop's decisions. Both Session shapes run one turn the same way:
//! check for cancellation, fire the interrupt when it is due, ask the model,
//! and either end on text or run the tools it asked for and go round again.
//! The loop itself awaits the model and the tools and lives with the caller;
//! what it decides at each step is here.
//!
//! Rules: **a Turn decides nothing about ending the work** (that is the
//! caller's policy); **the interrupt fires between model calls, counted from
//! the last metacognition**; **blank text is silence**.
use vstd::prelude::*;

use crate::domain::message::{AssistantBody, Message, Reply, ToolCall};
use crate::domain::session::SessionKind;
use crate::domain::task::TaskState;
use crate::model::Purpose;
use crate::roles::{comms_session_tools, role_tools, tools_for, ToolName};
use crate::strings::{chars_of, trim, trimmed};

verus! {

/// How a turn ended. Reading success or failure is the caller's job.
#[derive(Debug, Clone, PartialEq, Eq)]
pub enum Turn {
    /// The model replied with plain text and called no tool.
    Text(String),
    /// The model replied with nothing at all.
    Silent,
    /// The model could not be reached.
    Unreachable(String),
    /// The Task this Session was working on was cancelled.
    Cancelled,
}

/// Messages since the last metacognition, never below zero.
pub open spec fn since(count: int, after: int) -> int {
    if count >= after {
        count - after
    } else {
        0
    }
}

/// Whether the interrupt is due: `count` messages in the transcript, the last
/// metacognition ran after message `after`, and it fires every `every`.
pub fn interrupt_due(count: usize, after: usize, every: usize) -> (due: bool)
    ensures
        due == (since(count as int, after as int) >= every),
{
    let gone = if count >= after {
        count - after
    } else {
        0
    };
    gone >= every
}

/// Whether the Task a Session works on has been cancelled.
pub open spec fn is_cancelled(state: Option<TaskState>) -> bool {
    state matches Some(TaskState::Cancelled { .. })
}

/// Whether the turn must stop because its Task was cancelled.
pub fn cancelled(state: &Option<TaskState>) -> (b: bool)
    ensures
        b == is_cancelled(*state),
{
    match state {
        Some(TaskState::Cancelled { .. }) => true,
        _ => false,
    }
}

/// How a round of the turn opens, before anything is asked of the model.
#[derive(Debug, Clone, PartialEq, Eq)]
pub enum Round {
    /// The turn is over before it asks anything: nothing is queued, sent,
    /// run or written.
    End(Turn),
    /// The interrupt is due: run it, then ask the model.
    Interrupt,
    /// Ask the model.
    Ask,
}

/// How a round opens: `state` is the state of the Task the Session works
/// on (none for a Comms Session), `counted` the number of messages in its
/// transcript where it could be read, `after` the message the last
/// metacognition ran after, `every` the interrupt interval.
pub open spec fn round_of(state: Option<TaskState>, counted: Option<usize>, after: usize, every: usize) -> Round {
    if is_cancelled(state) {
        Round::End(Turn::Cancelled)
    } else if counted matches Some(c) && since(c as int, after as int) >= every {
        Round::Interrupt
    } else {
        Round::Ask
    }
}

/// Opens a round of the turn. A cancelled Task ends the turn at once, as
/// `Cancelled`, with no action: before the interrupt, the scheduler, the
/// model or any tool. Otherwise the interrupt runs first when it is due.
pub fn round_start(state: &Option<TaskState>, counted: Option<usize>, after: usize, every: usize) -> (out: Round)
    ensures
        out == round_of(*state, counted, after, every),
        (out is End) <==> is_cancelled(*state),
        out is End ==> out == Round::End(Turn::Cancelled),
{
    if cancelled(state) {
        return Round::End(Turn::Cancelled);
    }
    match counted {
        Some(count) => if interrupt_due(count, after, every) {
            Round::Interrupt
        } else {
            Round::Ask
        },
        None => Round::Ask,
    }
}

/// The tools a Session of this kind is offered, and what its calls are for.
pub open spec fn offered(kind: SessionKind) -> (Seq<ToolName>, Purpose) {
    match kind {
        SessionKind::Worker { role, .. } => (role_tools(role), Purpose::Work(role)),
        SessionKind::Comms { .. } => (seq![ToolName::CreateTask], Purpose::Comms),
    }
}

/// The tools offered to a Session and the purpose of its calls: a Worker's
/// Role decides both; Comms gets its own set.
pub fn tools_and_purpose(kind: &SessionKind) -> (out: (Vec<ToolName>, Purpose))
    ensures
        out.0@ == offered(*kind).0,
        out.1 == offered(*kind).1,
{
    match kind {
        SessionKind::Worker { role, .. } => (tools_for(*role), Purpose::Work(*role)),
        SessionKind::Comms { .. } => (comms_session_tools(), Purpose::Comms),
    }
}

/// The turn plain text ends: silence where it is blank.
pub open spec fn text_turn(text: String) -> Turn {
    if trim(text@).len() == 0 {
        Turn::Silent
    } else {
        Turn::Text(text)
    }
}

/// What a step of the loop does after a reply: end the turn, or run these
/// tool calls and ask again.
#[derive(Debug, Clone, PartialEq, Eq)]
pub enum Step {
    Ended(Turn),
    Run(Vec<ToolCall>),
}

/// Whether `s` is the step a reply leads to.
pub open spec fn step_of(reply: Reply, s: Step) -> bool {
    match reply {
        Reply::Text(t) => s == Step::Ended(text_turn(t)),
        Reply::Calls { calls, .. } => s matches Step::Run(v) && v@ == calls@,
    }
}

/// The transcript entry a reply becomes.
pub open spec fn entry_of(reply: Reply, reasoning: Option<String>) -> Message {
    match reply {
        Reply::Text(t) => Message::Assistant { body: AssistantBody::Text(t), reasoning },
        Reply::Calls { preamble, calls } => Message::Assistant {
            body: AssistantBody::Calls { preamble, calls },
            reasoning,
        },
    }
}

/// What a reply does to the turn: it is appended to the transcript, then
/// plain text ends the turn (silently where blank) and tool calls are run in
/// the order asked.
pub fn after_reply(reply: Reply, reasoning: Option<String>) -> (out: (Message, Step))
    ensures
        out.0 == entry_of(reply, reasoning),
        step_of(reply, out.1),
{
    match reply {
        Reply::Text(text) => {
            let v = chars_of(text.as_str());
            let t = trimmed(&v, 0, v.len());
            assert(v@.subrange(0, v.len() as int) =~= v@);
            let ended = if t.len() == 0 {
                Turn::Silent
            } else {
                Turn::Text(text.clone())
            };
            (Message::Assistant { body: AssistantBody::Text(text), reasoning }, Step::Ended(ended))
        },
        Reply::Calls { preamble, calls } => {
            let items = calls.iter();
            let mut run: Vec<ToolCall> = Vec::new();
            let mut k: usize = 0;
            while k < items.len()
                invariant
                    k <= items.len(),
                    items.len() == calls@.len(),
                    forall|i: int| 0 <= i < items.len() ==> *items[i] == calls@[i],
                    run@ =~= calls@.take(k as int),
                decreases items.len() - k,
            {
                let c = items[k];
                run.push(copy_call(c));
                k = k + 1;
            }
            assert(calls@.take(calls@.len() as int) =~= calls@);
            (
                Message::Assistant { body: AssistantBody::Calls { preamble, calls }, reasoning },
                Step::Run(run),
            )
        },
    }
}

/// A copy of a tool call.
pub fn copy_call(c: &ToolCall) -> (out: ToolCall)
    ensures
        out == *c,
{
    ToolCall { id: c.id.clone(), name: c.name.clone(), arguments: c.arguments.clone() }
}

/// The transcript entry a tool's answer becomes: tied to the call it answers.
pub fn tool_answer(call: &ToolCall, output: String) -> (m: Message)
    ensures
        m == (Message::Tool { tool_call_id: call.id, content: output }),
{
    Message::Tool { tool_call_id: call.id.clone(), content: output }
}

/// The transcript entry text told to a Session becomes: mail, a child's
/// answer and interrupt feedback all arrive as user messages.
pub fn told(content: &str) -> (m: Message)
    ensures
        m matches Message::User { content: c } && c@ == content@,
{
    Message::User { content: crate::strings::owned(content) }
}

} // verus!
