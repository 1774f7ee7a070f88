//! Metacognition: two bare model calls that judge a Session.
//!
//! Review judges a finished turn; interrupt judges a running one. Both send a
//! sandwiched transcript (system prompt, transcript with `System` turned into
//! `User`, question) and read tagged sections from the answer. This module holds
//! what they decide: how the request is built, how a section is read, which
//! outcome the answer stands for, and what is kept of it.
//!
//! Rules: **interrupt cannot complete a Task**; **feedback takes precedence over
//! summary**; **sections are `<summary>`, `<feedback>`, `<lessons>`, and the next
//! section truncates an unclosed one.**
use vstd::prelude::*;

use crate::domain::ids::{CallId, SessionId};
use crate::domain::lesson::{LessonSubject, NewLesson};
use crate::domain::message::{Message, Reply};
use crate::domain::session::{
    Nudge, Outcome, Reflection, ReflectionKind, ReflectionResult, SessionKind,
};
use crate::domain::text::Title;
use crate::domain::time::Timestamp;
use crate::strings::{
    chars_of, find, find_chars, owned, push_str, skip_ws, string_of, trim, trim_start, trimmed,
    vec_eq,
};

verus! {

/// Sections metacognition may write. The next section truncates an unclosed one.
pub const SECTIONS: [&'static str; 3] = ["summary", "feedback", "lessons"];

/// The opening of a section's tag: `<name`.
pub open spec fn open_tag(name: Seq<char>) -> Seq<char> {
    "<"@ + name
}

/// A section's closing tag: `</name>`.
pub open spec fn close_tag(name: Seq<char>) -> Seq<char> {
    "</"@ + name + ">"@
}

/// `end`, or where section `other` opens in `after` if that is earlier; a
/// section never truncates itself.
pub open spec fn clip(after: Seq<char>, end: int, other: Seq<char>, name: Seq<char>) -> int {
    if other == name {
        end
    } else {
        match find(after, open_tag(other)) {
            Some(p) => if p < end {
                p
            } else {
                end
            },
            None => end,
        }
    }
}

/// Where the body of section `name` ends in `after` (the text just past its
/// opening tag): at its closing tag, else at the end, and never past the
/// opening of another section.
pub open spec fn section_end(after: Seq<char>, name: Seq<char>) -> int {
    let closed = match find(after, close_tag(name)) {
        Some(p) => p,
        None => after.len() as int,
    };
    clip(after, clip(after, clip(after, closed, "summary"@, name), "feedback"@, name), "lessons"@, name)
}

/// Section `name` of `content`, trimmed: `None` where it does not open; empty
/// where it is self-closing.
pub open spec fn section_of(content: Seq<char>, name: Seq<char>) -> Option<Seq<char>> {
    match find(content, open_tag(name)) {
        None => None,
        Some(i) => {
            let rest = trim_start(content.skip(i + open_tag(name).len()));
            if rest.len() >= 2 && rest[0] == '/' && rest[1] == '>' {
                Some(Seq::empty())
            } else if rest.len() >= 1 && rest[0] == '>' {
                let after = rest.skip(1);
                Some(trim(after.take(section_end(after, name))))
            } else {
                None
            }
        },
    }
}

/// A section's text where it is there and not blank.
pub open spec fn filled(s: Option<Seq<char>>) -> Option<Seq<char>> {
    match s {
        Some(t) => if trim(t).len() > 0 {
            Some(trim(t))
        } else {
            None
        },
        None => None,
    }
}

/// The move an answer stands for, as text: what `Outcome` holds, before it
/// is a `String`.
pub enum Move {
    Feedback(Seq<char>),
    Complete(Seq<char>),
    Nothing,
}

/// The move an answer stands for: feedback first; a summary completes only
/// under review; else nothing.
pub open spec fn outcome_of(kind: ReflectionKind, content: Seq<char>) -> Move {
    match filled(section_of(content, "feedback"@)) {
        Some(f) => Move::Feedback(f),
        None => if kind == ReflectionKind::Review {
            match filled(section_of(content, "summary"@)) {
                Some(s) => Move::Complete(s),
                None => Move::Nothing,
            }
        } else {
            Move::Nothing
        },
    }
}

/// Whether `o` is the outcome that makes this move, character for character.
pub open spec fn outcome_matches(o: Outcome, expected: Move) -> bool {
    match (o, expected) {
        (Outcome::Feedback(a), Move::Feedback(b)) => a@ == b,
        (Outcome::Complete(a), Move::Complete(b)) => a@ == b,
        (Outcome::Nothing, Move::Nothing) => true,
        _ => false,
    }
}

/// Copies `v[from..]`.
fn tail_of(v: &Vec<char>, from: usize) -> (out: Vec<char>)
    requires
        from <= v.len(),
    ensures
        out@ == v@.skip(from as int),
{
    let mut out: Vec<char> = Vec::new();
    let mut k = from;
    while k < v.len()
        invariant
            from <= k <= v.len(),
            out@ =~= v@.subrange(from as int, k as int),
        decreases v.len() - k,
    {
        out.push(v[k]);
        k = k + 1;
    }
    assert(out@ =~= v@.skip(from as int));
    out
}

/// `name`'s opening tag or closing tag as characters.
fn tag_chars(name: &Vec<char>, closing: bool) -> (out: Vec<char>)
    ensures
        closing ==> out@ == close_tag(name@),
        !closing ==> out@ == open_tag(name@),
{
    let mut out: Vec<char> = Vec::new();
    if closing {
        push_str(&mut out, "</");
    } else {
        push_str(&mut out, "<");
    }
    let mut k: usize = 0;
    let ghost start = out@;
    while k < name.len()
        invariant
            k <= name.len(),
            out@ =~= start + name@.take(k as int),
        decreases name.len() - k,
    {
        out.push(name[k]);
        k = k + 1;
    }
    assert(name@.take(name.len() as int) =~= name@);
    if closing {
        push_str(&mut out, ">");
    }
    out
}

/// Pulls `end` back to where `other` opens in `after`, unless `other` is the
/// section being read.
fn clip_at(after: &Vec<char>, end: usize, other: &str, name: &Vec<char>) -> (out: usize)
    requires
        end <= after.len(),
    ensures
        out == clip(after@, end as int, other@, name@),
        out <= end,
{
    let o = chars_of(other);
    if vec_eq(&o, name) {
        return end;
    }
    let tag = tag_chars(&o, false);
    match find_chars(after, &tag, 0) {
        Some(p) => if p < end {
            p
        } else {
            end
        },
        None => end,
    }
}

/// One tagged section of model output, trimmed. A self-closing `<name/>` gives
/// an empty section; a section left open ends where the next one opens.
pub fn section(content: &str, name: &str) -> (out: Option<String>)
    ensures
        match out {
            Some(s) => section_of(content@, name@) == Some(s@),
            None => section_of(content@, name@) is None,
        },
{
    let v = chars_of(content);
    let nm = chars_of(name);
    let opening = tag_chars(&nm, false);
    let found = find_chars(&v, &opening, 0);
    let idx = match found {
        Some(i) => i,
        None => return None,
    };
    let width = opening.len();
    assert(idx + width <= v.len());
    let from = idx + width;
    let at = skip_ws(&v, from);
    let ghost rest = trim_start(v@.skip(idx + opening@.len()));
    assert(rest == v@.skip(at as int));
    if v.len() - at >= 2 && v[at] == '/' && v[at + 1] == '>' {
        return Some(String::new());
    }
    if at >= v.len() || v[at] != '>' {
        return None;
    }
    let after = tail_of(&v, at + 1);
    assert(after@ =~= rest.skip(1));
    let close = tag_chars(&nm, true);
    let mut end = match find_chars(&after, &close, 0) {
        Some(p) => p,
        None => after.len(),
    };
    end = clip_at(&after, end, "summary", &nm);
    end = clip_at(&after, end, "feedback", &nm);
    end = clip_at(&after, end, "lessons", &nm);
    let body = trimmed(&after, 0, end);
    assert(after@.subrange(0, end as int) =~= after@.take(end as int));
    Some(string_of(&body))
}

/// A section trimmed again and kept only where it is not blank.
fn filled_text(s: Option<String>) -> (out: Option<String>)
    ensures
        match out {
            Some(t) => filled(match s {
                Some(x) => Some(x@),
                None => None,
            }) == Some(t@),
            None => filled(match s {
                Some(x) => Some(x@),
                None => None,
            }) is None,
        },
{
    match s {
        None => None,
        Some(x) => {
            let v = chars_of(x.as_str());
            let t = trimmed(&v, 0, v.len());
            assert(v@.subrange(0, v.len() as int) =~= v@);
            if t.len() == 0 {
                None
            } else {
                Some(string_of(&t))
            }
        },
    }
}

/// Reads which move a metacognitive answer took. Feedback takes precedence
/// over a summary, and a summary completes the Task only under review: an
/// interrupt's answer is feedback or nothing.
pub fn read_outcome(kind: ReflectionKind, content: &str) -> (out: Outcome)
    ensures
        outcome_matches(out, outcome_of(kind, content@)),
{
    let feedback = filled_text(section(content, "feedback"));
    match feedback {
        Some(f) => {
            Outcome::Feedback(f)
        },
        None => {
            if kind == ReflectionKind::Review {
                let summary = filled_text(section(content, "summary"));
                match summary {
                    Some(s) => Outcome::Complete(s),
                    None => Outcome::Nothing,
                }
            } else {
                Outcome::Nothing
            }
        },
    }
}

/// What an interrupt returns for an outcome: its feedback, else nothing.
pub open spec fn nudge_of(o: Outcome) -> Nudge {
    match o {
        Outcome::Feedback(t) => Nudge::Feedback(t),
        _ => Nudge::Nothing,
    }
}

impl Nudge {
    /// The nudge an interrupt gives for an outcome; a summary is discarded.
    pub fn of(o: Outcome) -> (n: Nudge)
        ensures
            n == nudge_of(o),
    {
        match o {
            Outcome::Feedback(text) => Nudge::Feedback(text),
            _ => Nudge::Nothing,
        }
    }
}

/// The text metacognition answered with: the reply's text, or the preamble of
/// tool calls it should not have made.
pub open spec fn reply_text(r: Reply) -> Seq<char> {
    match r {
        Reply::Text(t) => t@,
        Reply::Calls { preamble, .. } => match preamble {
            Some(p) => p@,
            None => Seq::empty(),
        },
    }
}

/// The text of a metacognitive reply.
pub fn reply_content(reply: Reply) -> (out: String)
    ensures
        out@ == reply_text(reply),
{
    match reply {
        Reply::Text(t) => t,
        Reply::Calls { preamble, .. } => match preamble {
            Some(p) => p,
            None => String::new(),
        },
    }
}

/// A transcript as metacognition sees it: `System` messages become `User`.
pub open spec fn as_seen(m: Message) -> Message {
    match m {
        Message::System { content } => Message::User { content },
        other => other,
    }
}

/// The sandwiched request: the metacognition system prompt, the transcript
/// with its system messages turned into user messages, then the question.
pub fn sandwich(system: &str, transcript: Vec<Message>, question: &str) -> (out: Vec<Message>)
    ensures
        out.len() == transcript.len() + 2,
        out[0] matches Message::System { content } && content@ == system@,
        out[out.len() - 1] matches Message::System { content } && content@ == question@,
        forall|i: int| 0 <= i < transcript.len() ==> out[i + 1] == as_seen(#[trigger] transcript[i]),
{
    let mut out: Vec<Message> = Vec::new();
    out.push(Message::System { content: owned(system) });
    let n = transcript.len();
    let mut rest = transcript;
    let ghost all = rest@;
    let mut k: usize = 0;
    let mut taken: Vec<Message> = Vec::new();
    while k < n
        invariant
            n == all.len(),
            k <= n,
            out.len() == k + 1,
            out[0] matches Message::System { content } && content@ == system@,
            forall|i: int| 0 <= i < k ==> out[i + 1] == as_seen(#[trigger] all[i]),
            rest@ == all.skip(k as int),
        decreases n - k,
    {
        let m = rest.remove(0);
        assert(m == all[k as int]);
        let seen = match m {
            Message::System { content } => Message::User { content },
            other => other,
        };
        out.push(seen);
        assert(rest@ =~= all.skip(k + 1));
        k = k + 1;
    }
    out.push(Message::System { content: owned(question) });
    out
}

/// The lessons an answer kept, where its `<lessons>` section is there and not
/// blank.
pub fn lessons_of(content: &str) -> (out: Option<String>)
    ensures
        match out {
            Some(t) => filled(section_of(content@, "lessons"@)) == Some(t@),
            None => filled(section_of(content@, "lessons"@)) is None,
        },
{
    filled_text(section(content, "lessons"))
}

/// What a lesson from a Session of this kind is about. A Worker's lesson is
/// anchored on its Task, which needs the Task's title: without one, none is kept.
pub open spec fn subject_of(kind: SessionKind, title: Option<Title>) -> Option<LessonSubject> {
    match kind {
        SessionKind::Worker { task, role } => match title {
            Some(t) => Some(LessonSubject::Task { task, role, title: t }),
            None => None,
        },
        SessionKind::Comms { channel, .. } => Some(LessonSubject::Conversation { channel }),
    }
}

/// Anchors a lesson on what the judged Session was doing.
pub fn lesson_subject(kind: &SessionKind, title: Option<Title>) -> (out: Option<LessonSubject>)
    ensures
        out == subject_of(*kind, title),
{
    match kind {
        SessionKind::Worker { task, role } => match title {
            Some(t) => Some(LessonSubject::Task { task: *task, role: *role, title: t }),
            None => None,
        },
        SessionKind::Comms { channel, .. } => Some(LessonSubject::Conversation { channel: *channel }),
    }
}

/// The lesson to keep from an answer about a Session, if any.
pub fn lesson_from(session: SessionId, about: LessonSubject, content: &str) -> (out: Option<NewLesson>)
    ensures
        match out {
            Some(l) => filled(section_of(content@, "lessons"@)) == Some(l.text@) && l.session
                == session && l.about == about,
            None => filled(section_of(content@, "lessons"@)) is None,
        },
{
    match lessons_of(content) {
        Some(text) => Some(NewLesson { text, session, about }),
        None => None,
    }
}

/// A copy of an outcome.
pub fn copy_outcome(o: &Outcome) -> (out: Outcome)
    ensures
        out == *o,
{
    match o {
        Outcome::Complete(t) => Outcome::Complete(t.clone()),
        Outcome::Feedback(t) => Outcome::Feedback(t.clone()),
        Outcome::Nothing => Outcome::Nothing,
    }
}

/// The record of a metacognition that ran, and the outcome it stands for.
pub fn ran(
    kind: ReflectionKind,
    call: CallId,
    after_message: usize,
    at: Timestamp,
    reasoning: Option<String>,
    content: String,
) -> (out: (Reflection, Outcome))
    ensures
        outcome_matches(out.1, outcome_of(kind, content@)),
        out.0.kind == kind,
        out.0.call == call,
        out.0.after_message == after_message,
        out.0.at == at,
        out.0.result matches ReflectionResult::Ran { reasoning: r, content: c, outcome: o }
            && r == reasoning && c@ == content@ && o == out.1,
{
    let outcome = read_outcome(kind, content.as_str());
    let kept = copy_outcome(&outcome);
    (
        Reflection {
            kind,
            call,
            after_message,
            at,
            result: ReflectionResult::Ran { reasoning, content, outcome: kept },
        },
        outcome,
    )
}

/// The record of a metacognition whose model call failed, and its outcome:
/// metacognition fails open, so the Session goes on as if nothing was said.
pub fn failed_open(kind: ReflectionKind, call: CallId, after_message: usize, at: Timestamp, error: String) -> (out: (
    Reflection,
    Outcome,
))
    ensures
        out.0 == (Reflection { kind, call, after_message, at, result: ReflectionResult::FailedOpen { error } }),
        out.1 == Outcome::Nothing,
{
    (Reflection { kind, call, after_message, at, result: ReflectionResult::FailedOpen { error } }, Outcome::Nothing)
}

/// An interrupt can never complete a Task: whatever the model answers, an
/// interrupt's outcome is feedback or nothing.
pub proof fn law_interrupt_never_completes(content: Seq<char>)
    ensures
        !(outcome_of(ReflectionKind::Interrupt, content) is Complete),
{
}

/// Feedback takes precedence over a summary: an answer with a non-blank
/// `<feedback>` section is feedback under either kind, whatever else it holds.
pub proof fn law_feedback_takes_precedence(kind: ReflectionKind, content: Seq<char>)
    requires
        filled(section_of(content, "feedback"@)) is Some,
    ensures
        outcome_of(kind, content) is Feedback,
{
}

/// A review completes the Task exactly when its answer has a non-blank
/// `<summary>` and no non-blank `<feedback>`.
pub proof fn law_review_completes_on_summary_alone(content: Seq<char>)
    ensures
        (outcome_of(ReflectionKind::Review, content) is Complete) <==> (filled(
            section_of(content, "feedback"@),
        ) is None && filled(section_of(content, "summary"@)) is Some),
{
}

/// The names of the sections metacognition may write.
pub open spec fn is_section(name: Seq<char>) -> bool {
    name == "summary"@ || name == "feedback"@ || name == "lessons"@
}

proof fn lemma_trim_start_is_suffix(s: Seq<char>)
    ensures
        exists|a: int| 0 <= a <= s.len() && trim_start(s) == s.subrange(a, s.len() as int),
    decreases s.len(),
{
    if s.len() > 0 && crate::strings::is_ws(s[0]) {
        lemma_trim_start_is_suffix(s.drop_first());
        let a = choose|a: int|
            0 <= a <= s.drop_first().len() && trim_start(s.drop_first()) == s.drop_first().subrange(
                a,
                s.drop_first().len() as int,
            );
        assert(s.drop_first().subrange(a, s.drop_first().len() as int) =~= s.subrange(a + 1, s.len() as int));
    } else {
        assert(s.subrange(0, s.len() as int) =~= s);
    }
}

proof fn lemma_trim_end_is_prefix(s: Seq<char>)
    ensures
        exists|b: int| 0 <= b <= s.len() && crate::strings::trim_end(s) == s.subrange(0, b),
    decreases s.len(),
{
    if s.len() > 0 && crate::strings::is_ws(s.last()) {
        lemma_trim_end_is_prefix(s.drop_last());
        let b = choose|b: int| 0 <= b <= s.drop_last().len() && crate::strings::trim_end(s.drop_last()) == s.drop_last().subrange(0, b);
        assert(s.drop_last().subrange(0, b) =~= s.subrange(0, b));
    } else {
        assert(s.subrange(0, s.len() as int) =~= s);
    }
}

/// What `pat` does not occur in, no piece of holds it either.
proof fn lemma_absent_in_piece(s: Seq<char>, pat: Seq<char>, a: int, b: int)
    requires
        0 <= a <= b <= s.len(),
        forall|j: int| 0 <= j ==> !crate::strings::occurs_at(s, pat, j),
    ensures
        forall|j: int| 0 <= j ==> !crate::strings::occurs_at(#[trigger] s.subrange(a, b), pat, j),
{
    assert forall|j: int| 0 <= j implies !crate::strings::occurs_at(#[trigger] s.subrange(a, b), pat, j) by {
        if crate::strings::occurs_at(s.subrange(a, b), pat, j) {
            assert(s.subrange(a, b).subrange(j, j + pat.len()) =~= s.subrange(a + j, a + j + pat.len()));
            assert(crate::strings::occurs_at(s, pat, a + j));
        }
    }
}

/// The trimmed text of a piece holds no `pat` the piece does not hold.
proof fn lemma_trim_keeps_absence(s: Seq<char>, pat: Seq<char>)
    requires
        forall|j: int| 0 <= j ==> !crate::strings::occurs_at(s, pat, j),
    ensures
        forall|j: int| 0 <= j ==> !crate::strings::occurs_at(trim(s), pat, j),
{
    lemma_trim_start_is_suffix(s);
    let a = choose|a: int| 0 <= a <= s.len() && trim_start(s) == s.subrange(a, s.len() as int);
    lemma_absent_in_piece(s, pat, a, s.len() as int);
    let u = trim_start(s);
    lemma_trim_end_is_prefix(u);
    let b = choose|b: int| 0 <= b <= u.len() && crate::strings::trim_end(u) == u.subrange(0, b);
    lemma_absent_in_piece(u, pat, 0, b);
}

/// Clipping at a section pulls the end no later than it was, and no later
/// than where that section opens.
proof fn lemma_clip_bounds(after: Seq<char>, end: int, other: Seq<char>, name: Seq<char>)
    ensures
        clip(after, end, other, name) <= end,
        other != name && find(after, open_tag(other)) is Some ==> clip(after, end, other, name)
            <= find(after, open_tag(other))->Some_0,
{
}

/// A section's text never holds the opening tag of another section: a
/// section ends, closed or not, before the next one opens, so what one
/// section says never leaks into another's.
pub proof fn law_sections_never_nest(content: Seq<char>, name: Seq<char>, other: Seq<char>)
    requires
        is_section(name),
        is_section(other),
        name != other,
    ensures
        section_of(content, name) matches Some(s) ==> find(s, open_tag(other)) is None,
{
    let pat = open_tag(other);
    reveal_strlit("<");
    assert(pat.len() > 0);
    match find(content, open_tag(name)) {
        None => {},
        Some(i) => {
            let rest = trim_start(content.skip(i + open_tag(name).len()));
            if rest.len() >= 2 && rest[0] == '/' && rest[1] == '>' {
                let s = Seq::<char>::empty();
                crate::strings::lemma_find_from(s, pat, 0);
            } else if rest.len() >= 1 && rest[0] == '>' {
                let after = rest.skip(1);
                let closed = match find(after, close_tag(name)) {
                    Some(p) => p,
                    None => after.len() as int,
                };
                let e1 = clip(after, closed, "summary"@, name);
                let e2 = clip(after, e1, "feedback"@, name);
                let e3 = clip(after, e2, "lessons"@, name);
                assert(e3 == section_end(after, name));
                lemma_clip_bounds(after, closed, "summary"@, name);
                lemma_clip_bounds(after, e1, "feedback"@, name);
                lemma_clip_bounds(after, e2, "lessons"@, name);
                let end = e3;
                assert(0 <= closed <= after.len()) by {
                    crate::strings::lemma_find_from(after, close_tag(name), 0);
                }
                crate::strings::lemma_find_from(after, pat, 0);
                let piece = after.take(end);
                assert(0 <= end) by {
                    crate::strings::lemma_find_from(after, open_tag("summary"@), 0);
                    crate::strings::lemma_find_from(after, open_tag("feedback"@), 0);
                    crate::strings::lemma_find_from(after, open_tag("lessons"@), 0);
                }
                match find(after, pat) {
                    Some(p) => {
                        assert(end <= p);
                    },
                    None => {},
                }
                assert forall|j: int| 0 <= j implies !crate::strings::occurs_at(piece, pat, j) by {
                    if crate::strings::occurs_at(piece, pat, j) {
                        assert(piece.subrange(j, j + pat.len()) =~= after.subrange(j, j + pat.len()));
                        assert(crate::strings::occurs_at(after, pat, j));
                    }
                }
                lemma_trim_keeps_absence(piece, pat);
                crate::strings::lemma_find_from(trim(piece), pat, 0);
            }
        },
    }
}

} // verus!
