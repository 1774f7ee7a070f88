//! The conversation: transcript, tool contract, and model exchange.
//!
//! Rules:
//! - **Text alongside tool calls is preamble, not an ending.** `Calls` carries
//!   `preamble`; [`NonEmpty`] forbids an empty list of calls.
//! - **Reasoning is inspection, never context.** Stored on `Assistant`, absent
//!   from the wire.
//! - **One system prompt, first.**
//! - **Tool answers are words.**
use vstd::prelude::*;

use crate::domain::call::Usage;
use crate::strings::{decimal, decimal_chars, push_chars, push_str, string_of, trim_end, trim_end_chars};

verus! {

/// One entry in a Session transcript. `Assistant` carries `reasoning` for
/// inspection; it is never sent to the model.
#[derive(Debug, Clone, PartialEq, Eq)]
pub enum Message {
    /// The Role's system prompt. Exactly one per Session, first.
    System { content: String },
    /// External input: Brief, mail, a child's Result, or metacognitive feedback.
    User { content: String },
    /// What the model said.
    Assistant { body: AssistantBody, reasoning: Option<String> },
    /// What one tool answered. Always words, even on failure.
    Tool { tool_call_id: String, content: String },
}

/// What an assistant message carries: either the turn ends with text, or it
/// continues with tool calls.
#[derive(Debug, Clone, PartialEq, Eq)]
pub enum AssistantBody {
    /// Plain text — triggers review for a Worker, said to the human for Comms.
    Text(String),
    /// Tool calls with optional preamble.
    Calls { preamble: Option<String>, calls: NonEmpty<ToolCall> },
}

/// What one model call returned; `reasoning` travels on [`Completion`].
#[derive(Debug, Clone, PartialEq, Eq)]
pub enum Reply {
    Text(String),
    Calls { preamble: Option<String>, calls: NonEmpty<ToolCall> },
}

/// One tool call as the model asked for it. Arguments are a JSON string.
#[derive(Debug, Clone, PartialEq, Eq)]
pub struct ToolCall {
    pub id: String,
    pub name: String,
    pub arguments: String,
}

/// What the transport returned for one exchange. Cost is taken from the
/// provider's response, not a local price list.
#[derive(Debug, Clone, PartialEq)]
pub struct Completion {
    pub reply: Reply,
    pub reasoning: Option<String>,
    pub usage: Usage,
}

/// A list that cannot be empty.
#[derive(Debug, PartialEq, Eq)]
pub struct NonEmpty<T> {
    head: T,
    tail: Vec<T>,
}

impl<T: Clone> Clone for NonEmpty<T> {
    fn clone(&self) -> (out: Self)
        ensures
            out@.len() == self@.len(),
            forall|i: int| 0 <= i < self@.len() ==> cloned::<T>(#[trigger] self@[i], out@[i]),
    {
        proof {
            use_type_invariant(self);
        }
        let head = self.head.clone();
        let tail = self.tail.clone();
        let out = NonEmpty { head, tail };
        assert forall|i: int| 0 <= i < self@.len() implies cloned::<T>(#[trigger] self@[i], out@[i]) by {
            if i > 0 {
                assert(self@[i] == self.tail@[i - 1]);
                assert(out@[i] == out.tail@[i - 1]);
                assert(cloned::<T>(self.tail[i - 1], out.tail[i - 1]));
            }
        }
        out
    }
}

impl<T> View for NonEmpty<T> {
    type V = Seq<T>;

    closed spec fn view(&self) -> Seq<T> {
        seq![self.head] + self.tail@
    }
}

impl<T> NonEmpty<T> {
    #[verifier::type_invariant]
    closed spec fn fits(self) -> bool {
        self.tail@.len() < usize::MAX
    }

    /// Create from head and tail.
    pub fn new(head: T, tail: Vec<T>) -> (out: NonEmpty<T>)
        requires
            tail@.len() < usize::MAX,
        ensures
            out@ == seq![head] + tail@,
    {
        NonEmpty { head, tail }
    }

    /// Collect a vec; `None` if empty.
    pub fn from_vec(items: Vec<T>) -> (out: Option<NonEmpty<T>>)
        ensures
            match out {
                Some(n) => n@ == items@,
                None => items@.len() == 0,
            },
    {
        let mut items = items;
        if items.len() == 0 {
            return None;
        }
        let ghost all = items@;
        let head = items.remove(0);
        assert(all =~= seq![head] + items@);
        Some(NonEmpty { head, tail: items })
    }

    /// First element.
    pub fn first(&self) -> (out: &T)
        ensures
            *out == self@[0],
    {
        &self.head
    }

    /// Number of elements. Always at least one.
    pub fn len(&self) -> (n: usize)
        ensures
            n == self@.len(),
            n >= 1,
    {
        proof {
            use_type_invariant(self);
        }
        1 + self.tail.len()
    }

    /// Always `false`; present for collection parity.
    pub fn is_empty(&self) -> (b: bool)
        ensures
            b == (self@.len() == 0),
            !b,
    {
        false
    }

    /// The elements, head then tail.
    pub fn iter(&self) -> (out: Vec<&T>)
        ensures
            out@.len() == self@.len(),
            forall|i: int| 0 <= i < out@.len() ==> *out@[i] == self@[i],
    {
        let mut out: Vec<&T> = Vec::new();
        out.push(&self.head);
        let mut i: usize = 0;
        while i < self.tail.len()
            invariant
                i <= self.tail.len(),
                out@.len() == i + 1,
                *out@[0] == self.head,
                forall|k: int| 1 <= k < out@.len() ==> *out@[k] == self.tail@[k - 1],
            decreases self.tail.len() - i,
        {
            out.push(&self.tail[i]);
            i = i + 1;
        }
        out
    }
}

/// The lines a list of calls renders as: `  tool call: name(arguments)`, each
/// ending in a newline.
pub open spec fn call_lines(calls: Seq<ToolCall>) -> Seq<char>
    decreases calls.len(),
{
    if calls.len() == 0 {
        Seq::empty()
    } else {
        call_lines(calls.drop_last()) + "  tool call: "@ + calls.last().name@ + seq!['('] + calls.last().arguments@
            + seq![')', '\n']
    }
}

/// A message as a reader sees it: `[role]` prefix, tool calls inline,
/// reasoning left out, no trailing newline.
pub open spec fn rendered(m: Message) -> Seq<char> {
    match m {
        Message::System { content } => "[system] "@ + content@,
        Message::User { content } => "[user] "@ + content@,
        Message::Assistant { body, .. } => match body {
            AssistantBody::Text(text) => "[assistant] "@ + text@,
            AssistantBody::Calls { preamble, calls } => trim_end(
                match preamble {
                    Some(p) => "[assistant] "@ + p@ + seq!['\n'],
                    None => Seq::empty(),
                } + call_lines(calls@),
            ),
        },
        Message::Tool { content, .. } => "[tool result] "@ + content@,
    }
}

/// A message's one-line kind for the log.
pub open spec fn described(m: Message) -> Seq<char> {
    match m {
        Message::System { .. } => "system"@,
        Message::User { .. } => "user"@,
        Message::Assistant { body, .. } => match body {
            AssistantBody::Text(_) => "assistant: text"@,
            AssistantBody::Calls { calls, .. } => "assistant: "@ + decimal(calls@.len()) + " tool call(s)"@,
        },
        Message::Tool { tool_call_id, .. } => "tool result for "@ + tool_call_id@,
    }
}

/// The name a message's role is stored as.
pub open spec fn message_tag(m: Message) -> Seq<char> {
    match m {
        Message::System { .. } => "system"@,
        Message::User { .. } => "user"@,
        Message::Assistant { .. } => "assistant"@,
        Message::Tool { .. } => "tool"@,
    }
}

impl Message {
    /// Render for a reader: `[role]` prefix, tool calls inline. For anything
    /// that reads a transcript as text rather than replaying it as context.
    pub fn render(&self) -> (out: String)
        ensures
            out@ == rendered(*self),
    {
        let mut v: Vec<char> = Vec::new();
        match self {
            Message::System { content } => {
                push_str(&mut v, "[system] ");
                push_str(&mut v, content.as_str());
            },
            Message::User { content } => {
                push_str(&mut v, "[user] ");
                push_str(&mut v, content.as_str());
            },
            Message::Assistant { body, .. } => match body {
                AssistantBody::Text(text) => {
                    push_str(&mut v, "[assistant] ");
                    push_str(&mut v, text.as_str());
                },
                AssistantBody::Calls { preamble, calls } => {
                    match preamble {
                        Some(p) => {
                            push_str(&mut v, "[assistant] ");
                            push_str(&mut v, p.as_str());
                            v.push('\n');
                        },
                        None => {},
                    }
                    let ghost start = v@;
                    assert(start =~= match preamble {
                        Some(p) => "[assistant] "@ + p@ + seq!['\n'],
                        None => Seq::<char>::empty(),
                    });
                    let items = calls.iter();
                    let mut i: usize = 0;
                    while i < items.len()
                        invariant
                            i <= items@.len(),
                            items@.len() == calls@.len(),
                            forall|k: int| 0 <= k < items@.len() ==> *items@[k] == calls@[k],
                            v@ == start + call_lines(calls@.take(i as int)),
                        decreases items.len() - i,
                    {
                        let call = items[i];
                        push_str(&mut v, "  tool call: ");
                        push_str(&mut v, call.name.as_str());
                        v.push('(');
                        push_str(&mut v, call.arguments.as_str());
                        v.push(')');
                        v.push('\n');
                        assert(calls@.take(i + 1).drop_last() =~= calls@.take(i as int));
                        assert(v@ =~= start + call_lines(calls@.take(i + 1)));
                        i = i + 1;
                    }
                    assert(calls@.take(items@.len() as int) =~= calls@);
                    assert(v@ == start + call_lines(calls@));
                    trim_end_chars(&mut v);
                    assert(v@ == rendered(*self));
                },
            },
            Message::Tool { content, .. } => {
                push_str(&mut v, "[tool result] ");
                push_str(&mut v, content.as_str());
            },
        }
        assert(v@ =~= rendered(*self));
        string_of(&v)
    }

    /// One-line kind for the log. The body stays in the database.
    pub fn describe(&self) -> (out: String)
        ensures
            out@ == described(*self),
    {
        let mut v: Vec<char> = Vec::new();
        match self {
            Message::System { .. } => push_str(&mut v, "system"),
            Message::User { .. } => push_str(&mut v, "user"),
            Message::Assistant { body, .. } => match body {
                AssistantBody::Text(_) => push_str(&mut v, "assistant: text"),
                AssistantBody::Calls { calls, .. } => {
                    push_str(&mut v, "assistant: ");
                    let n = decimal_chars(calls.len() as u64);
                    push_chars(&mut v, &n);
                    push_str(&mut v, " tool call(s)");
                },
            },
            Message::Tool { tool_call_id, .. } => {
                push_str(&mut v, "tool result for ");
                push_str(&mut v, tool_call_id.as_str());
            },
        }
        assert(v@ =~= described(*self));
        string_of(&v)
    }

    /// The name the message's role is stored as.
    pub fn tag(&self) -> (s: &'static str)
        ensures
            s@ == message_tag(*self),
    {
        match self {
            Message::System { .. } => "system",
            Message::User { .. } => "user",
            Message::Assistant { .. } => "assistant",
            Message::Tool { .. } => "tool",
        }
    }
}

} // verus!
