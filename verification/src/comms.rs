//! The Comms Session's policy: one standing Session per Channel, the only
//! voice a human hears. Mail is drained all at once and told to the Session
//! with who sent it and when; a turn that ends in text is said to the human
//! unless it holds the silence marker.
//!
//! Rules: **Comms never completes a Task and is never reviewed**; **the
//! silence marker is silence** (models are bad at empty replies); **human
//! input is also kept in the Channel's transcript; swarm mail is not**.
use vstd::prelude::*;

use crate::domain::session::{Incoming, IncomingFrom};
use crate::domain::time::stamp;
use crate::session::Turn;
use crate::strings::{chars_of, find, find_chars, push_str, string_of};

verus! {

/// Marker for silence: a reply that holds it reaches nobody.
pub const NO_RESPONSE: &'static str = "<no-response />";

/// Who sent a piece of mail, as the Session is told.
pub open spec fn sender_text(from: IncomingFrom) -> Seq<char> {
    match from {
        IncomingFrom::Human => "human"@,
        IncomingFrom::Swarm => "swarm"@,
    }
}

/// How a piece of mail is told to the Session: `[who, when] text`.
pub open spec fn mail_text(from: IncomingFrom, when: Seq<char>, text: Seq<char>) -> Seq<char> {
    seq!['['] + sender_text(from) + ", "@ + when + "] "@ + text
}

/// Words one piece of mail given when it arrived, as the local time reads.
pub fn mail_line(from: IncomingFrom, when: &str, text: &str) -> (out: String)
    ensures
        out@ == mail_text(from, when@, text@),
{
    let mut v: Vec<char> = Vec::new();
    v.push('[');
    match from {
        IncomingFrom::Human => push_str(&mut v, "human"),
        IncomingFrom::Swarm => push_str(&mut v, "swarm"),
    }
    push_str(&mut v, ", ");
    push_str(&mut v, when);
    push_str(&mut v, "] ");
    push_str(&mut v, text);
    string_of(&v)
}

/// Words one piece of mail, stamped with the local time it arrived. The
/// stamp rests on the machine's time zone; the rest is fixed.
pub fn mail_entry(item: &Incoming) -> (out: String)
    requires
        -8_334_601_228_800_000 <= item.at.0 <= 8_210_266_790_399_999,
    ensures
        exists|when: Seq<char>| out@ == mail_text(item.from, when, item.text@),
{
    let when = stamp(item.at);
    let out = mail_line(item.from, when.as_str(), item.text.as_str());
    assert(out@ == mail_text(item.from, when@, item.text@));
    out
}

/// What a Comms turn says to the human: its text, unless the turn did not
/// end in text or the text holds the silence marker.
pub open spec fn said(turn: Turn) -> Option<Seq<char>> {
    match turn {
        Turn::Text(t) => if find(t@, NO_RESPONSE@) is Some {
            None
        } else {
            Some(t@)
        },
        _ => None,
    }
}

/// Decides what a Comms turn says to the human, if anything.
pub fn to_say(turn: Turn) -> (out: Option<String>)
    ensures
        match out {
            Some(t) => said(turn) == Some(t@),
            None => said(turn) is None,
        },
{
    match turn {
        Turn::Text(text) => {
            let v = chars_of(text.as_str());
            let marker = chars_of(NO_RESPONSE);
            match find_chars(&v, &marker, 0) {
                Some(_) => None,
                None => Some(text),
            }
        },
        _ => None,
    }
}

/// Whether mail from this sender is also kept in the Channel's transcript:
/// only a human's.
pub fn kept_in_transcript(from: IncomingFrom) -> (b: bool)
    ensures
        b == (from == IncomingFrom::Human),
{
    match from {
        IncomingFrom::Human => true,
        IncomingFrom::Swarm => false,
    }
}

/// The silence marker is silence wherever it stands: a text that holds it at
/// any position reaches nobody; a text that does not is said whole; a turn
/// that did not end in text says nothing.
pub proof fn law_marker_anywhere_is_silence(turn: Turn)
    ensures
        turn matches Turn::Text(t) ==> ((exists|i: int| crate::strings::occurs_at(t@, NO_RESPONSE@, i))
            ==> said(turn) is None),
        turn matches Turn::Text(t) ==> ((forall|i: int| !crate::strings::occurs_at(t@, NO_RESPONSE@, i))
            ==> said(turn) == Some(t@)),
        !(turn is Text) ==> said(turn) is None,
{
    match turn {
        Turn::Text(t) => {
            crate::strings::lemma_find_from(t@, NO_RESPONSE@, 0);
            if exists|i: int| crate::strings::occurs_at(t@, NO_RESPONSE@, i) {
                let i = choose|i: int| crate::strings::occurs_at(t@, NO_RESPONSE@, i);
                assert(0 <= i);
            }
        },
        _ => {},
    }
}

} // verus!
