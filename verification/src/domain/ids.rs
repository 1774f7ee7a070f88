//! Typed ids for every entity.
//!
//! One `u32` per entity behind distinct types, so a `SessionId` cannot be
//! passed where a `TaskId` is expected. Written as `<prefix>-nn` (at least two
//! digits) for logs, wire and tool arguments, and read back from that form.
use vstd::prelude::*;

use crate::strings::{
    chars_of, lemma_zero_padded, parse_u32, parse_u32_chars, push_chars, push_str, string_of,
    zero_padded, zero_padded_chars,
};

verus! {

/// The text form of id `n` with `prefix`: `prefix`, `-`, then `n` in decimal
/// padded with zeros to two digits.
pub open spec fn id_text(prefix: Seq<char>, n: u32) -> Seq<char> {
    prefix + seq!['-'] + zero_padded(n as nat, 2)
}

/// What reading `s` as an id with `prefix` gives: the number after
/// `prefix-`, read as `u32::from_str` reads it.
pub open spec fn id_parse(prefix: Seq<char>, s: Seq<char>) -> Option<u32> {
    if s.len() >= prefix.len() + 1 && s.take(prefix.len() as int) == prefix && s[prefix.len() as int]
        == '-' {
        parse_u32(s.skip(prefix.len() + 1 as int))
    } else {
        None
    }
}

/// Reading back the text form of an id gives the id.
pub proof fn lemma_id_round_trip(prefix: Seq<char>, n: u32)
    ensures
        id_parse(prefix, id_text(prefix, n)) == Some(n),
{
    let t = id_text(prefix, n);
    let z = zero_padded(n as nat, 2);
    lemma_zero_padded(n as nat, 2);
    assert(t.take(prefix.len() as int) =~= prefix);
    assert(t.skip(prefix.len() + 1 as int) =~= z);
    assert(z[0] != '+') by {
        assert(crate::strings::is_digit(z[0]));
    }
}

/// Writes id `n` with `prefix`.
pub fn format_id(prefix: &str, n: u32) -> (out: String)
    ensures
        out@ == id_text(prefix@, n),
{
    let mut v: Vec<char> = Vec::new();
    push_str(&mut v, prefix);
    v.push('-');
    let digits = zero_padded_chars(n as u64, 2);
    push_chars(&mut v, &digits);
    assert(v@ =~= id_text(prefix@, n));
    string_of(&v)
}

/// Reads an id with `prefix` back from its text form.
pub fn parse_id(prefix: &str, s: &str) -> (out: Option<u32>)
    ensures
        out == id_parse(prefix@, s@),
{
    let p = chars_of(prefix);
    let t = chars_of(s);
    if t.len() <= p.len() {
        return None;
    }
    let mut i: usize = 0;
    while i < p.len()
        invariant
            i <= p.len(),
            p.len() + 1 <= t.len(),
            t@ == s@,
            p@ == prefix@,
            forall|j: int| 0 <= j < i ==> t@[j] == p@[j],
        decreases p.len() - i,
    {
        if t[i] != p[i] {
            assert(t@.take(p@.len() as int)[i as int] != p@[i as int]);
            assert(s@.take(prefix@.len() as int) != prefix@);
            return None;
        }
        i = i + 1;
    }
    assert(t@.take(p@.len() as int) =~= p@);
    if t[p.len()] != '-' {
        return None;
    }
    let mut rest: Vec<char> = Vec::new();
    let mut k: usize = p.len() + 1;
    while k < t.len()
        invariant
            p.len() + 1 <= k <= t.len(),
            rest@ =~= t@.subrange(p.len() + 1, k as int),
        decreases t.len() - k,
    {
        rest.push(t[k]);
        k = k + 1;
    }
    assert(rest@ =~= t@.skip(p.len() + 1));
    parse_u32_chars(&rest)
}

/// Id text did not match `<prefix>-<n>`.
#[derive(Debug, Clone, PartialEq, Eq)]
pub struct IdError {
    pub text: String,
    pub expected: &'static str,
}

impl IdError {
    /// The sentence this failure reads as: `` `text` is not a expected id``.
    pub fn message(&self) -> (out: String)
        ensures
            out@ == seq!['`'] + self.text@ + "` is not a "@ + self.expected@ + " id"@,
    {
        let mut v: Vec<char> = Vec::new();
        v.push('`');
        push_str(&mut v, self.text.as_str());
        push_str(&mut v, "` is not a ");
        push_str(&mut v, self.expected);
        push_str(&mut v, " id");
        assert(v@ =~= seq!['`'] + self.text@ + "` is not a "@ + self.expected@ + " id"@);
        string_of(&v)
    }
}

/// One run of Sandman: a process lifetime, in the database.
#[derive(Debug, Clone, Copy, PartialEq, Eq, PartialOrd, Ord, Hash, Structural)]
pub struct RunId(pub u32);

/// One Task — the single unit of work.
#[derive(Debug, Clone, Copy, PartialEq, Eq, PartialOrd, Ord, Hash, Structural)]
pub struct TaskId(pub u32);

/// One Session — a live agent context.
#[derive(Debug, Clone, Copy, PartialEq, Eq, PartialOrd, Ord, Hash, Structural)]
pub struct SessionId(pub u32);

/// One Channel — a two-way connection to a human.
#[derive(Debug, Clone, Copy, PartialEq, Eq, PartialOrd, Ord, Hash, Structural)]
pub struct ChannelId(pub u32);

/// One model call.
#[derive(Debug, Clone, Copy, PartialEq, Eq, PartialOrd, Ord, Hash, Structural)]
pub struct CallId(pub u32);

/// One lesson kept by metacognition.
#[derive(Debug, Clone, Copy, PartialEq, Eq, PartialOrd, Ord, Hash, Structural)]
pub struct LessonId(pub u32);

/// Reads `s` as an id with `prefix`, or says why it is not one.
fn read_id(prefix: &'static str, s: &str) -> (out: Result<u32, IdError>)
    ensures
        match id_parse(prefix@, s@) {
            Some(n) => out == Ok::<u32, IdError>(n),
            None => out is Err && out->Err_0.text@ == s@ && out->Err_0.expected == prefix,
        },
{
    match parse_id(prefix, s) {
        Some(n) => Ok(n),
        None => Err(IdError { text: crate::strings::owned(s), expected: prefix }),
    }
}

impl RunId {
    /// Text form, `run-nn`.
    pub fn to_string(&self) -> (out: String)
        ensures
            out@ == id_text("run"@, self.0),
    {
        format_id("run", self.0)
    }

    /// Reads `run-<n>`; anything else is an `IdError`.
    pub fn from_str(s: &str) -> (out: Result<RunId, IdError>)
        ensures
            match id_parse("run"@, s@) {
                Some(n) => out == Ok::<RunId, IdError>(RunId(n)),
                None => out is Err && out->Err_0.text@ == s@ && out->Err_0.expected == "run",
            },
    {
        match read_id("run", s) {
            Ok(n) => Ok(RunId(n)),
            Err(e) => Err(e),
        }
    }
}

impl TaskId {
    /// Text form, `t-nn`.
    pub fn to_string(&self) -> (out: String)
        ensures
            out@ == id_text("t"@, self.0),
    {
        format_id("t", self.0)
    }

    /// Reads `t-<n>`; anything else is an `IdError`.
    pub fn from_str(s: &str) -> (out: Result<TaskId, IdError>)
        ensures
            match id_parse("t"@, s@) {
                Some(n) => out == Ok::<TaskId, IdError>(TaskId(n)),
                None => out is Err && out->Err_0.text@ == s@ && out->Err_0.expected == "t",
            },
    {
        match read_id("t", s) {
            Ok(n) => Ok(TaskId(n)),
            Err(e) => Err(e),
        }
    }
}

impl SessionId {
    /// Text form, `s-nn`.
    pub fn to_string(&self) -> (out: String)
        ensures
            out@ == id_text("s"@, self.0),
    {
        format_id("s", self.0)
    }

    /// Reads `s-<n>`; anything else is an `IdError`.
    pub fn from_str(s: &str) -> (out: Result<SessionId, IdError>)
        ensures
            match id_parse("s"@, s@) {
                Some(n) => out == Ok::<SessionId, IdError>(SessionId(n)),
                None => out is Err && out->Err_0.text@ == s@ && out->Err_0.expected == "s",
            },
    {
        match read_id("s", s) {
            Ok(n) => Ok(SessionId(n)),
            Err(e) => Err(e),
        }
    }
}

impl ChannelId {
    /// Text form, `ch-nn`.
    pub fn to_string(&self) -> (out: String)
        ensures
            out@ == id_text("ch"@, self.0),
    {
        format_id("ch", self.0)
    }

    /// Reads `ch-<n>`; anything else is an `IdError`.
    pub fn from_str(s: &str) -> (out: Result<ChannelId, IdError>)
        ensures
            match id_parse("ch"@, s@) {
                Some(n) => out == Ok::<ChannelId, IdError>(ChannelId(n)),
                None => out is Err && out->Err_0.text@ == s@ && out->Err_0.expected == "ch",
            },
    {
        match read_id("ch", s) {
            Ok(n) => Ok(ChannelId(n)),
            Err(e) => Err(e),
        }
    }
}

impl CallId {
    /// Text form, `call-nn`.
    pub fn to_string(&self) -> (out: String)
        ensures
            out@ == id_text("call"@, self.0),
    {
        format_id("call", self.0)
    }

    /// Reads `call-<n>`; anything else is an `IdError`.
    pub fn from_str(s: &str) -> (out: Result<CallId, IdError>)
        ensures
            match id_parse("call"@, s@) {
                Some(n) => out == Ok::<CallId, IdError>(CallId(n)),
                None => out is Err && out->Err_0.text@ == s@ && out->Err_0.expected == "call",
            },
    {
        match read_id("call", s) {
            Ok(n) => Ok(CallId(n)),
            Err(e) => Err(e),
        }
    }
}

impl LessonId {
    /// Text form, `l-nn`.
    pub fn to_string(&self) -> (out: String)
        ensures
            out@ == id_text("l"@, self.0),
    {
        format_id("l", self.0)
    }

    /// Reads `l-<n>`; anything else is an `IdError`.
    pub fn from_str(s: &str) -> (out: Result<LessonId, IdError>)
        ensures
            match id_parse("l"@, s@) {
                Some(n) => out == Ok::<LessonId, IdError>(LessonId(n)),
                None => out is Err && out->Err_0.text@ == s@ && out->Err_0.expected == "l",
            },
    {
        match read_id("l", s) {
            Ok(n) => Ok(LessonId(n)),
            Err(e) => Err(e),
        }
    }
}

/// The text form of every id reads back as that id, whatever the prefix.
pub proof fn law_id_text_round_trip(prefix: Seq<char>, n: u32)
    ensures
        id_parse(prefix, id_text(prefix, n)) == Some(n),
{
    lemma_id_round_trip(prefix, n);
}

} // verus!
