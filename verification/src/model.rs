//! The exchange with a model, as data: what a call is for, the wire shape of a
//! transcript, and how an answer becomes a `Reply` and a `Usage`.
//!
//! Rules: **the wire shape has no reasoning** (recorded reasoning never reaches
//! the wire); **tool calls only count when there is at least one**;
//! **`prompt_tokens` counts the whole prompt, cache hits included**.
use vstd::prelude::*;

use crate::domain::call::Usage;
use crate::domain::message::{AssistantBody, Message, NonEmpty, Reply, ToolCall};
use crate::domain::time::Cost;
use crate::roles::RoleName;
use crate::strings::{decimal, decimal_chars, push_chars, push_str, string_of};

verus! {

/// What a call is for. There is no default: every call names its purpose.
#[derive(Debug, Clone, Copy, PartialEq, Eq, Structural)]
pub enum Purpose {
    /// A Comms Session talking to a human.
    Comms,
    /// A Worker on a Task of this Role.
    Work(RoleName),
    /// A review or an interrupt.
    Metacognition,
}

/// Why a model call failed.
#[derive(Debug, Clone, PartialEq, Eq)]
pub enum ModelError {
    /// The model could not be reached.
    Transport(String),
    /// The endpoint answered with a failing HTTP status.
    Status { status: u16, body: String },
    /// The answer could not be read.
    Malformed(String),
}

/// The sentence a model error reads as.
pub open spec fn model_error_text(e: ModelError) -> Seq<char> {
    match e {
        ModelError::Transport(why) => "could not reach the model: "@ + why@,
        ModelError::Status { status, body } => "HTTP "@ + decimal(status as nat) + ": "@ + body@,
        ModelError::Malformed(why) => "the model's answer could not be read: "@ + why@,
    }
}

impl ModelError {
    /// The sentence this error reads as.
    pub fn message(&self) -> (out: String)
        ensures
            out@ == model_error_text(*self),
    {
        let mut v: Vec<char> = Vec::new();
        match self {
            ModelError::Transport(why) => {
                push_str(&mut v, "could not reach the model: ");
                push_str(&mut v, why.as_str());
            },
            ModelError::Status { status, body } => {
                push_str(&mut v, "HTTP ");
                let d = decimal_chars(*status as u64);
                push_chars(&mut v, &d);
                push_str(&mut v, ": ");
                push_str(&mut v, body.as_str());
            },
            ModelError::Malformed(why) => {
                push_str(&mut v, "the model's answer could not be read: ");
                push_str(&mut v, why.as_str());
            },
        }
        string_of(&v)
    }
}

/// One tool call on the wire.
#[derive(Debug, Clone, PartialEq, Eq)]
pub struct WireToolCall {
    pub id: String,
    pub name: String,
    pub arguments: String,
}

/// One transcript entry on the wire. It has no field for reasoning.
#[derive(Debug, Clone, PartialEq, Eq)]
pub struct WireMessage {
    pub role: &'static str,
    pub content: Option<String>,
    pub tool_calls: Option<Vec<WireToolCall>>,
    pub tool_call_id: Option<String>,
}

/// The wire role of a transcript entry.
pub open spec fn wire_role(m: Message) -> Seq<char> {
    match m {
        Message::System { .. } => "system"@,
        Message::User { .. } => "user"@,
        Message::Assistant { .. } => "assistant"@,
        Message::Tool { .. } => "tool"@,
    }
}

/// The text content a transcript entry sends.
pub open spec fn wire_content(m: Message) -> Option<String> {
    match m {
        Message::System { content } => Some(content),
        Message::User { content } => Some(content),
        Message::Assistant { body, .. } => match body {
            AssistantBody::Text(t) => Some(t),
            AssistantBody::Calls { preamble, .. } => preamble,
        },
        Message::Tool { content, .. } => Some(content),
    }
}

/// Whether a wire tool call carries exactly the fields of a domain one.
pub open spec fn same_call(w: WireToolCall, c: ToolCall) -> bool {
    w.id == c.id && w.name == c.name && w.arguments == c.arguments
}

impl WireMessage {
    /// The wire form of a transcript entry. Reasoning is dropped; tool calls
    /// keep their order; only a tool answer names the call it answers.
    pub fn from(m: &Message) -> (w: WireMessage)
        ensures
            w.role@ == wire_role(*m),
            w.content == wire_content(*m),
            match *m {
                Message::Tool { tool_call_id, .. } => w.tool_call_id == Some(tool_call_id),
                _ => w.tool_call_id is None,
            },
            match *m {
                Message::Assistant { body: AssistantBody::Calls { calls, .. }, .. } => match w.tool_calls {
                    Some(v) => v.len() == calls@.len() && forall|i: int|
                        0 <= i < v.len() ==> same_call(#[trigger] v[i], calls@[i]),
                    None => false,
                },
                _ => w.tool_calls is None,
            },
    {
        match m {
            Message::System { content } => WireMessage {
                role: "system",
                content: Some(content.clone()),
                tool_calls: None,
                tool_call_id: None,
            },
            Message::User { content } => WireMessage {
                role: "user",
                content: Some(content.clone()),
                tool_calls: None,
                tool_call_id: None,
            },
            Message::Assistant { body, .. } => match body {
                AssistantBody::Text(text) => WireMessage {
                    role: "assistant",
                    content: Some(text.clone()),
                    tool_calls: None,
                    tool_call_id: None,
                },
                AssistantBody::Calls { preamble, calls } => {
                    let items = calls.iter();
                    let mut out: Vec<WireToolCall> = Vec::new();
                    let mut k: usize = 0;
                    while k < items.len()
                        invariant
                            k <= items.len(),
                            items.len() == calls@.len(),
                            forall|i: int| 0 <= i < items.len() ==> *items[i] == calls@[i],
                            out.len() == k,
                            forall|i: int| 0 <= i < k ==> same_call(#[trigger] out[i], calls@[i]),
                        decreases items.len() - k,
                    {
                        let c = items[k];
                        out.push(
                            WireToolCall {
                                id: c.id.clone(),
                                name: c.name.clone(),
                                arguments: c.arguments.clone(),
                            },
                        );
                        k = k + 1;
                    }
                    let content = match preamble {
                        Some(p) => Some(p.clone()),
                        None => None,
                    };
                    WireMessage {
                        role: "assistant",
                        content,
                        tool_calls: Some(out),
                        tool_call_id: None,
                    }
                },
            },
            Message::Tool { tool_call_id, content } => WireMessage {
                role: "tool",
                content: Some(content.clone()),
                tool_calls: None,
                tool_call_id: Some(tool_call_id.clone()),
            },
        }
    }
}

/// The text of an answer's message, empty where it has none.
pub open spec fn text_of(content: Option<String>) -> Seq<char> {
    match content {
        Some(t) => t@,
        None => Seq::empty(),
    }
}

/// Whether an answer holds at least one tool call.
pub open spec fn has_calls(calls: Option<Vec<ToolCall>>) -> bool {
    calls is Some && calls->Some_0@.len() > 0
}

/// Builds the reply from the message of an answer: `Calls` where the answer
/// holds at least one tool call (its text becomes the preamble), else `Text`.
pub fn reply_from(content: Option<String>, tool_calls: Option<Vec<ToolCall>>) -> (r: Reply)
    ensures
        has_calls(tool_calls) ==> (r matches Reply::Calls { preamble, calls } && preamble == content
            && calls@ == tool_calls->Some_0@),
        !has_calls(tool_calls) ==> (r matches Reply::Text(t) && t@ == text_of(content)),
{
    match tool_calls {
        Some(c) => {
            let n = c.len();
            match NonEmpty::from_vec(c) {
                Some(calls) => {
                    let _count = calls.len();
                    Reply::Calls { preamble: content, calls }
                },
                None => {
                    assert(n == 0);
                    match content {
                        Some(t) => Reply::Text(t),
                        None => Reply::Text(String::new()),
                    }
                },
            }
        },
        None => match content {
            Some(t) => Reply::Text(t),
            None => Reply::Text(String::new()),
        },
    }
}

/// Counts an exchange. The provider's `prompt_tokens` counts the whole prompt,
/// cache hits included, so what was processed is the remainder. The cost is
/// in billionths of a dollar.
pub fn usage_from(prompt_tokens: u64, completion_tokens: u64, cached_tokens: u64, cost: i64) -> (u: Usage)
    ensures
        u.cached == cached_tokens,
        u.prefill == (if prompt_tokens >= cached_tokens {
            prompt_tokens - cached_tokens
        } else {
            0
        }),
        u.produced == completion_tokens,
        u.cost == Cost(cost),
{
    let prefill = if prompt_tokens >= cached_tokens {
        prompt_tokens - cached_tokens
    } else {
        0
    };
    Usage { cached: cached_tokens, prefill, produced: completion_tokens, cost: Cost(cost) }
}

} // verus!
