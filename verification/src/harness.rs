//! The orchestrator's decisions. The Harness owns Tasks, Sessions and
//! Channels through the Store and drives them; what it decides at each point
//! is here as functions from state to decision: what `step` may start, what
//! a cancellation does, how long to sleep, and whether anything is left.
//!
//! Rules: **Comms mail first, then the next pending Task**; **a cron Task
//! makes work instead of being work**; **one respond per Channel, one Worker
//! per Task**; **cancelling reaches one Task alone**.
use vstd::prelude::*;

use crate::domain::ids::{ChannelId, SessionId, TaskId};
use crate::domain::task::{terminal, Schedule, Task, TaskState};
use crate::domain::time::Duration;

verus! {

/// How much work `step` may start.
#[derive(Debug, Clone, Copy, PartialEq, Eq, Structural)]
pub enum Drive {
    /// Nothing starts by itself.
    Manual,
    /// Channels with mail are answered; pending Tasks stay queued.
    CommsOnly,
    /// Tasks run and Channels with mail are answered.
    Full,
}

impl Drive {
    /// Whether Channels with mail are answered under this drive.
    pub fn answers_mail(&self) -> (b: bool)
        ensures
            b == (*self != Drive::Manual),
    {
        match self {
            Drive::Manual => false,
            _ => true,
        }
    }

    /// Whether pending Tasks are started under this drive.
    pub fn starts_tasks(&self) -> (b: bool)
        ensures
            b == (*self == Drive::Full),
    {
        match self {
            Drive::Full => true,
            _ => false,
        }
    }
}

/// What cancelling a Task came to.
#[derive(Debug, Clone, PartialEq, Eq)]
pub enum CancelOutcome {
    NotFound,
    /// Already finished; nothing to stop.
    Completed,
    /// Already cancelled.
    Already,
    /// Stopped; `running` says whether its Session was holding it.
    Cancelled { running: bool },
}

/// What a cancellation does to a Task in this state: report that there is
/// nothing to stop, or go ahead, releasing the Session that held it if any.
#[derive(Debug, Clone, PartialEq, Eq)]
pub enum Cancellation {
    Report(CancelOutcome),
    Stop { holder: Option<SessionId> },
}

/// The cancellation a Task's state calls for.
pub open spec fn cancellation_of(state: Option<TaskState>) -> Cancellation {
    match state {
        None => Cancellation::Report(CancelOutcome::NotFound),
        Some(TaskState::Completed { .. }) => Cancellation::Report(CancelOutcome::Completed),
        Some(TaskState::Cancelled { .. }) => Cancellation::Report(CancelOutcome::Already),
        Some(TaskState::Running { session, .. }) => Cancellation::Stop { holder: Some(session) },
        Some(TaskState::Pending) => Cancellation::Stop { holder: None },
    }
}

/// Decides a cancellation from the Task's state, if the Task exists.
pub fn cancellation(state: &Option<TaskState>) -> (c: Cancellation)
    ensures
        c == cancellation_of(*state),
{
    match state {
        None => Cancellation::Report(CancelOutcome::NotFound),
        Some(TaskState::Completed { .. }) => Cancellation::Report(CancelOutcome::Completed),
        Some(TaskState::Cancelled { .. }) => Cancellation::Report(CancelOutcome::Already),
        Some(TaskState::Running { session, .. }) => Cancellation::Stop { holder: Some(*session) },
        Some(TaskState::Pending) => Cancellation::Stop { holder: None },
    }
}

/// What a cancellation that went ahead reports.
pub fn cancelled_outcome(holder: Option<SessionId>) -> (o: CancelOutcome)
    ensures
        o == (CancelOutcome::Cancelled { running: holder is Some }),
{
    CancelOutcome::Cancelled { running: holder.is_some() }
}

/// Only a Task that has not ended can be stopped: a finished or cancelled
/// Task is reported, never stopped again.
pub proof fn law_only_live_tasks_stop(state: TaskState)
    ensures
        (cancellation_of(Some(state)) is Stop) <==> !terminal(state),
{
}

/// One open Channel as `step` sees it.
#[derive(Debug, Clone, Copy, PartialEq, Eq, Structural)]
pub struct ChannelView {
    pub channel: ChannelId,
    /// Its Comms Session has unread mail.
    pub has_mail: bool,
    /// A respond is already in flight on it.
    pub driving: bool,
}

/// Whether `step` may take up this Channel.
pub open spec fn ready(c: ChannelView) -> bool {
    c.has_mail && !c.driving
}

/// The first Channel, in the order they were opened, with mail and no
/// respond in flight.
pub fn first_ready(channels: &Vec<ChannelView>) -> (out: Option<usize>)
    ensures
        match out {
            Some(i) => i < channels.len() && ready(channels[i as int]) && forall|j: int|
                0 <= j < i ==> !ready(#[trigger] channels[j]),
            None => forall|j: int| 0 <= j < channels.len() ==> !ready(#[trigger] channels[j]),
        },
{
    let mut i: usize = 0;
    while i < channels.len()
        invariant
            i <= channels.len(),
            forall|j: int| 0 <= j < i ==> !ready(#[trigger] channels[j]),
        decreases channels.len() - i,
    {
        if channels[i].has_mail && !channels[i].driving {
            return Some(i);
        }
        i = i + 1;
    }
    None
}

/// What one `step` starts.
#[derive(Debug, Clone, PartialEq, Eq)]
pub enum Start {
    /// Nothing is ready, or the drive lets nothing start.
    Nothing,
    /// Answer this Channel's mail.
    Respond(ChannelId),
    /// Copy this cron Task into a daughter and re-arm it.
    FireCron(TaskId),
    /// Start a Worker on the Task with this id.
    Work(TaskId),
}

/// What `step` starts: nothing under `Manual`; else the first Channel with
/// mail and no respond in flight; else, under `Full`, the next pending Task,
/// where a cron Task fires instead of running.
pub open spec fn start_of(drive: Drive, channels: Seq<ChannelView>, next: Option<Task>) -> Start {
    if drive == Drive::Manual {
        Start::Nothing
    } else if exists|j: int| 0 <= j < channels.len() && ready(#[trigger] channels[j]) {
        let i = choose|i: int|
            0 <= i < channels.len() && ready(#[trigger] channels[i]) && forall|j: int|
                0 <= j < i ==> !ready(#[trigger] channels[j]);
        Start::Respond(channels[i].channel)
    } else if drive == Drive::CommsOnly {
        Start::Nothing
    } else {
        match next {
            None => Start::Nothing,
            Some(t) => match t.schedule {
                Schedule::Cron { .. } => Start::FireCron(t.id),
                _ => Start::Work(t.id),
            },
        }
    }
}

/// Decides what one `step` starts, from the open Channels and the next
/// pending Task due now.
pub fn step_start(drive: Drive, channels: &Vec<ChannelView>, next: &Option<Task>) -> (s: Start)
    ensures
        s == start_of(drive, channels@, *next),
{
    if !drive.answers_mail() {
        return Start::Nothing;
    }
    match first_ready(channels) {
        Some(i) => {
            proof {
                let k = choose|k: int|
                    0 <= k < channels@.len() && ready(#[trigger] channels@[k]) && forall|j: int|
                        0 <= j < k ==> !ready(#[trigger] channels@[j]);
                if k < i {
                    assert(!ready(channels@[k]));
                }
                if i < k {
                    assert(!ready(channels@[i as int]));
                }
            }
            return Start::Respond(channels[i].channel);
        },
        None => {},
    }
    if !drive.starts_tasks() {
        return Start::Nothing;
    }
    match next {
        None => Start::Nothing,
        Some(t) => match t.schedule {
            Schedule::Cron { .. } => Start::FireCron(t.id),
            _ => Start::Work(t.id),
        },
    }
}

/// How long the run loop sleeps: until the next timed Task is due, never a
/// negative time, and an hour when nothing is timed.
pub fn sleep_millis(wait: Option<Duration>) -> (ms: u64)
    ensures
        match wait {
            Some(d) => ms == (if d.0 < 0 {
                0
            } else {
                d.0
            }),
            None => ms == 3_600_000,
        },
{
    match wait {
        Some(d) => if d.0 < 0 {
            0
        } else {
            d.0 as u64
        },
        None => 3_600_000,
    }
}

/// Whether anything is still left to do: a Worker or respond in flight, a
/// blocked waiter, or a Task of this Run that has not ended. When the Tasks
/// cannot be read, the answer is yes.
pub fn busy(workers: bool, responds: bool, waiters: bool, tasks: Option<&Vec<Task>>) -> (b: bool)
    ensures
        b == (workers || responds || waiters || match tasks {
            Some(ts) => exists|i: int| 0 <= i < ts.len() && !terminal(#[trigger] ts[i].state),
            None => true,
        }),
{
    if workers || responds || waiters {
        return true;
    }
    match tasks {
        None => true,
        Some(ts) => {
            let mut i: usize = 0;
            while i < ts.len()
                invariant
                    i <= ts.len(),
                    tasks == Some(ts),
                    !workers && !responds && !waiters,
                    forall|j: int| 0 <= j < i ==> terminal(#[trigger] ts[j].state),
                decreases ts.len() - i,
            {
                if !ts[i].state.is_terminal() {
                    assert(!terminal(ts[i as int].state));
                    return true;
                }
                i = i + 1;
            }
            false
        },
    }
}

/// The Tasks winding down cancels: every Task of the Run that has not
/// ended, in order.
pub open spec fn unfinished_ids(tasks: Seq<Task>) -> Seq<TaskId>
    decreases tasks.len(),
{
    if tasks.len() == 0 {
        Seq::empty()
    } else if terminal(tasks.last().state) {
        unfinished_ids(tasks.drop_last())
    } else {
        unfinished_ids(tasks.drop_last()).push(tasks.last().id)
    }
}

/// The ids of the Tasks that have not ended.
pub fn unfinished(tasks: &Vec<Task>) -> (out: Vec<TaskId>)
    ensures
        out@ == unfinished_ids(tasks@),
{
    let mut out: Vec<TaskId> = Vec::new();
    let mut i: usize = 0;
    while i < tasks.len()
        invariant
            i <= tasks.len(),
            out@ == unfinished_ids(tasks@.take(i as int)),
        decreases tasks.len() - i,
    {
        assert(tasks@.take(i + 1).drop_last() =~= tasks@.take(i as int));
        if !tasks[i].state.is_terminal() {
            out.push(tasks[i].id);
        }
        i = i + 1;
    }
    assert(tasks@.take(tasks.len() as int) =~= tasks@);
    out
}

/// Mail comes before work: whenever the drive lets anything start and some
/// Channel has mail and no respond in flight, `step` answers a Channel rather
/// than starting a Task; under `Manual` nothing starts at all.
pub proof fn law_mail_before_work(drive: Drive, channels: Seq<ChannelView>, next: Option<Task>)
    ensures
        drive == Drive::Manual ==> start_of(drive, channels, next) == Start::Nothing,
        drive != Drive::Manual && (exists|j: int| 0 <= j < channels.len() && ready(#[trigger] channels[j]))
            ==> start_of(drive, channels, next) is Respond,
        drive == Drive::CommsOnly ==> !(start_of(drive, channels, next) is Work) && !(start_of(
            drive,
            channels,
            next,
        ) is FireCron),
{
}

/// Every Task the queue hands out is started when nothing else comes first:
/// under `Full`, with no Channel waiting to be answered, a cron Task fires
/// and every other Task (due now or delayed until now) runs as work.
pub proof fn law_due_task_starts(channels: Seq<ChannelView>, t: Task)
    requires
        forall|j: int| 0 <= j < channels.len() ==> !ready(#[trigger] channels[j]),
    ensures
        !(t.schedule is Cron) ==> start_of(Drive::Full, channels, Some(t)) == Start::Work(t.id),
        t.schedule is Cron ==> start_of(Drive::Full, channels, Some(t)) == Start::FireCron(t.id),
        start_of(Drive::Full, channels, None) == Start::Nothing,
{
}

} // verus!
