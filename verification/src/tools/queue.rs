//! The queue tools and the small tools that name a Task or a Channel:
//! listing Tasks, cancelling one, waiting on one, and speaking to a human.
//! Each reads its arguments, asks the queue, and answers in words.
use vstd::prelude::*;

use crate::domain::channel::{channel_kind_text, ChannelKind};
use crate::domain::ids::{id_parse, id_text, ChannelId, TaskId};
use crate::domain::task::{state_name, state_name_text, TaskStateName, TaskSummary};
use crate::harness::CancelOutcome;
use crate::roles::role_text;
use crate::store::ListFilter;
use crate::strings::{join, join_chars, push_chars, push_str, string_of, views};
use crate::tools::ToolError;

verus! {

/// The filter `list_tasks` asks for: a state, if named, must be one; the
/// count, if given, limits the list.
pub fn list_filter(state: Option<String>, count: Option<u64>) -> (out: Result<ListFilter, ToolError>)
    ensures
        match state {
            None => out is Ok && out->Ok_0.state is None,
            Some(s) => match out {
                Ok(f) => f.state is Some && state_name_text(f.state->Some_0) == s@,
                Err(e) => (e matches ToolError::Rejected(why) && why@ == seq!['`'] + s@
                    + "` is not a Task state."@) && forall|n: TaskStateName| state_name_text(n) != s@,
            },
        },
        out is Ok ==> out->Ok_0.count == (match count {
            Some(n) => Some(n as usize),
            None => None,
        }),
{
    let state = match state {
        None => None,
        Some(given) => match TaskStateName::from_str(given.as_str()) {
            Some(n) => Some(n),
            None => {
                let mut v: Vec<char> = Vec::new();
                v.push('`');
                push_str(&mut v, given.as_str());
                push_str(&mut v, "` is not a Task state.");
                return Err(ToolError::Rejected(string_of(&v)));
            },
        },
    };
    let count = match count {
        Some(n) => Some(n as usize),
        None => None,
    };
    Ok(ListFilter { state, count })
}

/// One line of the list: `t-nn [state] role: title`.
pub open spec fn list_entry(t: TaskSummary) -> Seq<char> {
    id_text("t"@, t.id.0) + " ["@ + state_name_text(state_name(t.state)) + "] "@ + role_text(t.role)
        + ": "@ + t.title@
}

/// The list as the model reads it: one line per Task, or `No Tasks match.`
pub open spec fn list_text(tasks: Seq<TaskSummary>) -> Seq<char> {
    if tasks.len() == 0 {
        "No Tasks match."@
    } else {
        join(Seq::new(tasks.len(), |i: int| list_entry(tasks[i])), "\n"@)
    }
}

/// Words the queue for the model.
pub fn render_list(tasks: &Vec<TaskSummary>) -> (out: String)
    ensures
        out@ == list_text(tasks@),
{
    if tasks.len() == 0 {
        return crate::strings::owned("No Tasks match.");
    }
    let mut parts: Vec<Vec<char>> = Vec::new();
    let mut i: usize = 0;
    while i < tasks.len()
        invariant
            i <= tasks.len(),
            parts.len() == i,
            forall|k: int| 0 <= k < i ==> #[trigger] parts@[k]@ == list_entry(tasks@[k]),
        decreases tasks.len() - i,
    {
        let t = &tasks[i];
        let mut e: Vec<char> = Vec::new();
        let id = t.id.to_string();
        push_str(&mut e, id.as_str());
        push_str(&mut e, " [");
        let n = t.state.name();
        push_str(&mut e, n.as_str());
        push_str(&mut e, "] ");
        push_str(&mut e, t.role.as_str());
        push_str(&mut e, ": ");
        push_str(&mut e, t.title.as_str());
        parts.push(e);
        i = i + 1;
    }
    assert(views(parts@) =~= Seq::new(tasks@.len(), |k: int| list_entry(tasks@[k])));
    let joined = join_chars(&parts, "\n");
    string_of(&joined)
}

/// The Task a `task_id` argument names: missing is refused; text that is no
/// Task id is no such Task.
pub fn task_arg(given: Option<String>) -> (out: Result<TaskId, ToolError>)
    ensures
        match given {
            None => out == Err::<TaskId, ToolError>(ToolError::Missing { field: "task_id" }),
            Some(s) => match id_parse("t"@, s@) {
                Some(n) => out == Ok::<TaskId, ToolError>(TaskId(n)),
                None => out == Err::<TaskId, ToolError>(ToolError::NoSuchTask(s)),
            },
        },
{
    match given {
        None => Err(ToolError::Missing { field: "task_id" }),
        Some(s) => match TaskId::from_str(s.as_str()) {
            Ok(id) => Ok(id),
            Err(_) => Err(ToolError::NoSuchTask(s)),
        },
    }
}

/// What the model is told of a cancellation.
pub open spec fn cancel_text(task: TaskId, outcome: CancelOutcome) -> Seq<char> {
    let id = id_text("t"@, task.0);
    match outcome {
        CancelOutcome::NotFound => "Error: there is no Task "@ + id + "."@,
        CancelOutcome::Completed => id + " already completed. Nothing to stop."@,
        CancelOutcome::Already => id + " was already cancelled."@,
        CancelOutcome::Cancelled { running } => if running {
            "Cancelled "@ + id + ". It was running; its Session will stop at its next decision point."@
        } else {
            "Cancelled "@ + id + "."@
        },
    }
}

/// Words a cancellation for the model.
pub fn cancel_reply(task: TaskId, outcome: &CancelOutcome) -> (out: String)
    ensures
        out@ == cancel_text(task, *outcome),
{
    let id = task.to_string();
    let mut v: Vec<char> = Vec::new();
    match outcome {
        CancelOutcome::NotFound => {
            push_str(&mut v, "Error: there is no Task ");
            push_str(&mut v, id.as_str());
            push_str(&mut v, ".");
        },
        CancelOutcome::Completed => {
            push_str(&mut v, id.as_str());
            push_str(&mut v, " already completed. Nothing to stop.");
        },
        CancelOutcome::Already => {
            push_str(&mut v, id.as_str());
            push_str(&mut v, " was already cancelled.");
        },
        CancelOutcome::Cancelled { running } => {
            push_str(&mut v, "Cancelled ");
            push_str(&mut v, id.as_str());
            if *running {
                push_str(&mut v, ". It was running; its Session will stop at its next decision point.");
            } else {
                push_str(&mut v, ".");
            }
        },
    }
    string_of(&v)
}

/// Checks a `message_human` call: the Channel must be named, be a Channel
/// id, and be open; the text must be given. Returns the Channel and text.
pub fn message_target(channel: Option<String>, text: Option<String>, open: &Vec<ChannelId>) -> (out: Result<(ChannelId, String), ToolError>)
    ensures
        match channel {
            None => out == Err::<(ChannelId, String), ToolError>(ToolError::Missing { field: "channel" }),
            Some(c) => match id_parse("ch"@, c@) {
                None => out is Err && (out->Err_0 matches ToolError::Rejected(why) && why@
                    == seq!['`'] + c@ + "` is not an open Channel."@),
                Some(n) => match text {
                    None => out == Err::<(ChannelId, String), ToolError>(ToolError::Missing { field: "text" }),
                    Some(t) => if open@.contains(ChannelId(n)) {
                        out == Ok::<(ChannelId, String), ToolError>((ChannelId(n), t))
                    } else {
                        out is Err && (out->Err_0 matches ToolError::Rejected(why) && why@ == id_text(
                            "ch"@,
                            n,
                        ) + " is not open."@)
                    },
                },
            },
        },
{
    let given = match channel {
        None => return Err(ToolError::Missing { field: "channel" }),
        Some(c) => c,
    };
    let id = match ChannelId::from_str(given.as_str()) {
        Ok(id) => id,
        Err(_) => {
            let mut v: Vec<char> = Vec::new();
            v.push('`');
            push_str(&mut v, given.as_str());
            push_str(&mut v, "` is not an open Channel.");
            return Err(ToolError::Rejected(string_of(&v)));
        },
    };
    let text = match text {
        None => return Err(ToolError::Missing { field: "text" }),
        Some(t) => t,
    };
    if is_open(open, id) {
        return Ok((id, text));
    }
    let mut v: Vec<char> = Vec::new();
    let name = id.to_string();
    push_str(&mut v, name.as_str());
    push_str(&mut v, " is not open.");
    Err(ToolError::Rejected(string_of(&v)))
}

/// Whether `id` is among the open Channels.
pub fn is_open(open: &Vec<ChannelId>, id: ChannelId) -> (b: bool)
    ensures
        b == open@.contains(id),
{
    let mut i: usize = 0;
    while i < open.len()
        invariant
            i <= open.len(),
            forall|k: int| 0 <= k < i ==> open@[k] != id,
        decreases open.len() - i,
    {
        if open[i].0 == id.0 {
            assert(open@[i as int] == id);
            return true;
        }
        i = i + 1;
    }
    false
}

/// What `message_human` answers once the text is sent.
pub fn sent_reply(channel: ChannelId) -> (out: String)
    ensures
        out@ == "Sent to "@ + id_text("ch"@, channel.0) + "."@,
{
    let mut v: Vec<char> = Vec::new();
    push_str(&mut v, "Sent to ");
    let name = channel.to_string();
    push_str(&mut v, name.as_str());
    push_str(&mut v, ".");
    string_of(&v)
}

/// How an open Channel is listed in `message_human`'s description: `ch-nn
/// (kind)`, comma-separated.
pub open spec fn channel_listing(open: Seq<(ChannelId, ChannelKind)>) -> Seq<char> {
    join(
        Seq::new(
            open.len(),
            |i: int| id_text("ch"@, open[i].0.0) + " ("@ + channel_kind_text(open[i].1) + ")"@,
        ),
        ", "@,
    )
}

/// Lists the open Channels for `message_human`'s description.
pub fn list_channels(open: &Vec<(ChannelId, ChannelKind)>) -> (out: String)
    ensures
        out@ == channel_listing(open@),
{
    let mut parts: Vec<Vec<char>> = Vec::new();
    let mut i: usize = 0;
    while i < open.len()
        invariant
            i <= open.len(),
            parts.len() == i,
            forall|k: int|
                0 <= k < i ==> #[trigger] parts@[k]@ == id_text("ch"@, open@[k].0.0) + " ("@
                    + channel_kind_text(open@[k].1) + ")"@,
        decreases open.len() - i,
    {
        let mut e: Vec<char> = Vec::new();
        let name = open[i].0.to_string();
        push_str(&mut e, name.as_str());
        push_str(&mut e, " (");
        push_str(&mut e, open[i].1.as_str());
        push_str(&mut e, ")");
        parts.push(e);
        i = i + 1;
    }
    assert(views(parts@) =~= Seq::new(
        open@.len(),
        |k: int| id_text("ch"@, open@[k].0.0) + " ("@ + channel_kind_text(open@[k].1) + ")"@,
    ));
    let joined = join_chars(&parts, ", ");
    string_of(&joined)
}

} // verus!
