//! The Channel: one two-way line to a human, as the Store holds it.
use vstd::prelude::*;

use crate::domain::ids::{ChannelId, SessionId};
use crate::domain::time::Timestamp;
use crate::strings::str_eq;

verus! {

/// One open Channel, as the Store holds it.
#[derive(Debug, Clone, PartialEq, Eq)]
pub struct ChannelRecord {
    pub id: ChannelId,
    /// Transport this Channel uses, shown in the UI.
    pub kind: ChannelKind,
    /// The single Comms Session standing on this Channel.
    pub session: SessionId,
    /// What the human saw and said, without system prompt or tool calls.
    pub transcript: Vec<Utterance>,
}

/// How a Channel reaches its human.
#[derive(Debug, Clone, Copy, PartialEq, Eq, Structural)]
pub enum ChannelKind {
    /// The terminal Sandman was started in.
    Stdio,
    /// A browser on the Watcher UI.
    Web,
    /// A direct room with one human on a Matrix homeserver.
    Matrix,
    /// A bench script — named honestly, not a fake terminal.
    Scripted,
}

/// One turn on the transcript: what was said, by whom, and when.
#[derive(Debug, Clone, PartialEq, Eq)]
pub struct Utterance {
    pub who: Who,
    pub text: String,
    pub at: Timestamp,
}

/// Which side of a Channel spoke.
#[derive(Debug, Clone, Copy, PartialEq, Eq, Structural)]
pub enum Who {
    Human,
    Sandman,
}

/// The name a channel kind is written as.
pub open spec fn channel_kind_text(k: ChannelKind) -> Seq<char> {
    match k {
        ChannelKind::Stdio => "stdio"@,
        ChannelKind::Web => "web"@,
        ChannelKind::Matrix => "matrix"@,
        ChannelKind::Scripted => "scripted"@,
    }
}

/// The name a side is written as.
pub open spec fn who_text(w: Who) -> Seq<char> {
    match w {
        Who::Human => "human"@,
        Who::Sandman => "sandman"@,
    }
}

impl ChannelKind {
    /// The snake_case name.
    pub fn as_str(&self) -> (s: &'static str)
        ensures
            s@ == channel_kind_text(*self),
    {
        match self {
            ChannelKind::Stdio => "stdio",
            ChannelKind::Web => "web",
            ChannelKind::Matrix => "matrix",
            ChannelKind::Scripted => "scripted",
        }
    }

    /// The kind whose name `s` is, if any.
    pub fn from_str(s: &str) -> (k: Option<ChannelKind>)
        ensures
            match k {
                Some(kind) => channel_kind_text(kind) == s@,
                None => forall|kind: ChannelKind| channel_kind_text(kind) != s@,
            },
    {
        if str_eq(s, "stdio") {
            Some(ChannelKind::Stdio)
        } else if str_eq(s, "web") {
            Some(ChannelKind::Web)
        } else if str_eq(s, "matrix") {
            Some(ChannelKind::Matrix)
        } else if str_eq(s, "scripted") {
            Some(ChannelKind::Scripted)
        } else {
            None
        }
    }
}

impl Who {
    /// The snake_case name.
    pub fn as_str(&self) -> (s: &'static str)
        ensures
            s@ == who_text(*self),
    {
        match self {
            Who::Human => "human",
            Who::Sandman => "sandman",
        }
    }

    /// The side whose name `s` is, if any.
    pub fn from_str(s: &str) -> (w: Option<Who>)
        ensures
            match w {
                Some(who) => who_text(who) == s@,
                None => forall|who: Who| who_text(who) != s@,
            },
    {
        if str_eq(s, "human") {
            Some(Who::Human)
        } else if str_eq(s, "sandman") {
            Some(Who::Sandman)
        } else {
            None
        }
    }
}

} // verus!
