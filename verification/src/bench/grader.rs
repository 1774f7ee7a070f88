//! Grading what an agent did against what was wanted: a bare model call with
//! a strict system prompt, and a verdict read off the last line of its
//! reply. The call is made by the caller; the prompt and the reading are
//! here.
use vstd::prelude::*;

use crate::domain::message::Message;
use crate::domain::time::Cost;
use crate::strings::{chars_of, find, find_chars, owned, push_str, string_of};

verus! {

/// What the grader is told before what it grades.
pub const GRADER_SYSTEM: &'static str = "You grade what an agent did against what was wanted.\nBe strict and literal: grade what is written, not what was probably meant.\nEnd your reply with a verdict on its own line: <verdict>pass</verdict> or <verdict>fail</verdict>.";

/// A grader's verdict.
#[derive(Debug, Clone, Copy, PartialEq, Eq, Structural)]
pub enum Verdict {
    Pass,
    Fail,
}

/// What one grader found.
#[derive(Debug, Clone, PartialEq, Eq)]
pub struct GraderOutcome {
    pub name: String,
    pub verdict: Verdict,
    pub detail: String,
    /// The grader's reply as it came.
    pub raw: String,
    pub cost: Cost,
}

/// What `str::to_lowercase` makes of a text: each character by its Unicode
/// lower-case mapping.
pub uninterp spec fn lowercased(s: Seq<char>) -> Seq<char>;

/// Calls `str::to_lowercase`; the result is named `lowercased`, a function of
/// the text alone.
#[verifier::external_body]
fn to_lowercase(s: &str) -> (out: String)
    ensures
        out@ == lowercased(s@),
{
    s.to_lowercase()
}

/// How a reply is judged when a case gives no judge of its own: a pass tag
/// passes, else a fail tag fails, in any case of letters; a reply with
/// neither fails and says so.
pub open spec fn judged(reply: Seq<char>) -> (Verdict, Seq<char>) {
    if find(lowercased(reply), "<verdict>pass</verdict>"@) is Some {
        (Verdict::Pass, reply)
    } else if find(lowercased(reply), "<verdict>fail</verdict>"@) is Some {
        (Verdict::Fail, reply)
    } else {
        (Verdict::Fail, "no <verdict> tag in the reply: "@ + reply)
    }
}

/// Reads the verdict off a grader's reply.
pub fn default_judge(reply: &str) -> (out: (Verdict, String))
    ensures
        out.0 == judged(reply@).0,
        out.1@ == judged(reply@).1,
{
    let lower = to_lowercase(reply);
    let v = chars_of(lower.as_str());
    let pass = chars_of("<verdict>pass</verdict>");
    let fail = chars_of("<verdict>fail</verdict>");
    if find_chars(&v, &pass, 0).is_some() {
        (Verdict::Pass, owned(reply))
    } else if find_chars(&v, &fail, 0).is_some() {
        (Verdict::Fail, owned(reply))
    } else {
        let mut w: Vec<char> = Vec::new();
        push_str(&mut w, "no <verdict> tag in the reply: ");
        push_str(&mut w, reply);
        (Verdict::Fail, string_of(&w))
    }
}

/// The request a grader sends: its system prompt, then what it grades.
pub fn grader_request(input: &str) -> (out: Vec<Message>)
    ensures
        out@.len() == 2,
        out[0] matches Message::System { content } && content@ == GRADER_SYSTEM@,
        out[1] matches Message::User { content } && content@ == input@,
{
    let mut out: Vec<Message> = Vec::new();
    out.push(Message::System { content: owned(GRADER_SYSTEM) });
    out.push(Message::User { content: owned(input) });
    out
}

/// What a grader that could not be reached found: a failure saying why, at
/// no cost.
pub fn unreachable_outcome(name: &str, why: &str) -> (out: GraderOutcome)
    ensures
        out.name@ == name@,
        out.verdict == Verdict::Fail,
        out.detail@ == "the grader could not be reached: "@ + why@,
        out.raw@ == Seq::<char>::empty(),
        out.cost == Cost(0),
{
    let mut v: Vec<char> = Vec::new();
    push_str(&mut v, "the grader could not be reached: ");
    push_str(&mut v, why);
    GraderOutcome {
        name: owned(name),
        verdict: Verdict::Fail,
        detail: string_of(&v),
        raw: String::new(),
        cost: Cost(0),
    }
}

} // verus!
