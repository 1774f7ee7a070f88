//! The Worker's policy: what a finished turn means for its Task. Plain text
//! or silence is reviewed; an unreachable model fails the Task without a
//! review; a cancelled Task stops with no Result. A review's summary
//! completes the Task, its feedback is told to the Worker for another turn,
//! and nothing at all means another turn too.
use vstd::prelude::*;

use crate::domain::message::Message;
use crate::domain::session::Outcome;
use crate::domain::task::TaskResult;
use crate::domain::text::Brief;
use crate::prompts::{worker_prompt, Prompts};
use crate::roles::RoleName;
use crate::session::Turn;

verus! {

/// What a Worker's turn leads to before any review.
#[derive(Debug, Clone, PartialEq, Eq)]
pub enum AfterTurn {
    /// Ask metacognition to review the turn.
    Review,
    /// End the Task with this Result, unreviewed.
    Finish(TaskResult),
    /// Stop: the Task was cancelled and gets no Result.
    Abort,
}

/// What a Worker does after a turn ends this way.
pub open spec fn after_turn_of(turn: Turn) -> AfterTurn {
    match turn {
        Turn::Text(_) | Turn::Silent => AfterTurn::Review,
        Turn::Unreachable(why) => AfterTurn::Finish(TaskResult::Failed(why)),
        Turn::Cancelled => AfterTurn::Abort,
    }
}

/// Decides what a Worker does once its turn has ended.
pub fn after_turn(turn: Turn) -> (out: AfterTurn)
    ensures
        out == after_turn_of(turn),
{
    match turn {
        Turn::Text(_) | Turn::Silent => AfterTurn::Review,
        Turn::Unreachable(why) => AfterTurn::Finish(TaskResult::Failed(why)),
        Turn::Cancelled => AfterTurn::Abort,
    }
}

/// Where a Worker stands after its turn was reviewed.
#[derive(Debug, Clone, PartialEq, Eq)]
pub enum Worked {
    /// Take another turn, first telling the Worker this, if anything.
    Continue(Option<String>),
    /// The Task is done with this Result.
    Done(TaskResult),
}

/// What a review's outcome means for the Worker.
pub open spec fn worked_of(o: Outcome) -> Worked {
    match o {
        Outcome::Complete(summary) => Worked::Done(TaskResult::Succeeded(summary)),
        Outcome::Feedback(text) => Worked::Continue(Some(text)),
        Outcome::Nothing => Worked::Continue(None),
    }
}

/// Decides what a review's outcome means for the Worker.
pub fn after_review(o: Outcome) -> (out: Worked)
    ensures
        out == worked_of(o),
{
    match o {
        Outcome::Complete(summary) => Worked::Done(TaskResult::Succeeded(summary)),
        Outcome::Feedback(text) => Worked::Continue(Some(text)),
        Outcome::Nothing => Worked::Continue(None),
    }
}

/// Only a review's summary completes a Task with success; an interrupt's
/// nudge, which has no summary, never does.
pub proof fn law_only_a_summary_succeeds(o: Outcome)
    ensures
        (worked_of(o) matches Worked::Done(TaskResult::Succeeded(_))) <==> o is Complete,
        worked_of(crate::domain::session::nudge_outcome(crate::reflect::nudge_of(o))) is Continue,
{
}

/// A Worker's first transcript: its Role's system prompt, then the Brief,
/// which is all it is told.
pub fn worker_transcript(prompts: &Prompts, role: RoleName, brief: &Brief) -> (out: Vec<Message>)
    ensures
        out@.len() == 2,
        out[0] matches Message::System { content } && content@ == worker_prompt(*prompts, role),
        out[1] matches Message::User { content } && content@ == brief@,
{
    let mut out: Vec<Message> = Vec::new();
    out.push(Message::System { content: crate::prompts::system_prompt(prompts, role) });
    out.push(Message::User { content: crate::strings::owned(brief.as_str()) });
    out
}

} // verus!
