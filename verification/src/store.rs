//! The Store's rules. The Store is the only writer to the database and the
//! sole emitter of Events; what it decides before it writes is here: whether a
//! Task may complete, which Tasks a cancellation reaches, what a dead Run
//! leaves behind, who awaits a Task's answer, what a cron Task's daughter
//! carries, and what a Run has spent.
//!
//! Rules: **a cancelled Task never completes, and no Task completes twice**;
//! **cancelling skips what is missing or has ended**; **spend is re-summed
//! from finished calls, and a cache hit is not counted as work**.
use vstd::prelude::*;

use crate::db::{db_error_text, DbError};
use crate::domain::call::CallStatus;
use crate::domain::ids::{id_text, ChannelId, TaskId};
use crate::domain::session::SessionStatus;
use crate::domain::task::{
    schedule_not_before, state_name, state_name_text, terminal, Creator, NewTask, Schedule, Task,
    TaskResult, TaskState, TaskStateName, TaskSummary,
};
use crate::domain::time::{Cost, Duration, Spend, Timestamp};
use crate::strings::{push_str, string_of};

verus! {

/// Why the Store could not do what was asked.
#[derive(Debug, Clone, PartialEq, Eq)]
pub enum StoreError {
    /// The database failed.
    Db(DbError),
    /// No row has this id.
    NoSuch { what: &'static str, id: String },
    /// The Task is not running, so it will not be completed: the belt behind
    /// every caller's own check.
    NotRunning { task: TaskId, state: TaskStateName },
}

/// The sentence a Store error reads as.
pub open spec fn store_error_text(e: StoreError) -> Seq<char> {
    match e {
        StoreError::Db(d) => db_error_text(d),
        StoreError::NoSuch { what, id } => "there is no "@ + what@ + " "@ + id@,
        StoreError::NotRunning { task, state } => "task "@ + id_text("t"@, task.0) + " is "@
            + state_name_text(state) + ", not running; it will not be completed"@,
    }
}

impl StoreError {
    /// The sentence this error reads as.
    pub fn message(&self) -> (out: String)
        ensures
            out@ == store_error_text(*self),
    {
        match self {
            StoreError::Db(d) => d.message(),
            StoreError::NoSuch { what, id } => {
                let mut v: Vec<char> = Vec::new();
                push_str(&mut v, "there is no ");
                push_str(&mut v, what);
                push_str(&mut v, " ");
                push_str(&mut v, id.as_str());
                string_of(&v)
            },
            StoreError::NotRunning { task, state } => {
                let mut v: Vec<char> = Vec::new();
                push_str(&mut v, "task ");
                let t = task.to_string();
                push_str(&mut v, t.as_str());
                push_str(&mut v, " is ");
                push_str(&mut v, state.as_str());
                push_str(&mut v, ", not running; it will not be completed");
                string_of(&v)
            },
        }
    }
}

/// What `list_tasks` is asked for: Tasks in one state, or all; at most
/// `count` of them, or all.
#[derive(Debug, Clone, PartialEq, Eq)]
pub struct ListFilter {
    pub state: Option<TaskStateName>,
    pub count: Option<usize>,
}

/// The state completing a Task in `current` leads to, where it completes:
/// only a running Task does.
pub open spec fn completion_of(current: Option<TaskState>, result: TaskResult, now: Timestamp) -> Option<TaskState> {
    match current {
        Some(TaskState::Running { .. }) => Some(TaskState::Completed { result, at: now }),
        _ => None,
    }
}

/// Decides whether a Task may complete with `result`, and the state it moves
/// to: only a running Task completes; a missing one is no such Task; any
/// other is refused and named by its state.
pub fn completion(id: TaskId, current: Option<TaskState>, result: TaskResult, now: Timestamp) -> (out: Result<TaskState, StoreError>)
    ensures
        match completion_of(current, result, now) {
            Some(s) => out == Ok::<TaskState, StoreError>(s),
            None => out is Err,
        },
        match current {
            None => out is Err && (out->Err_0 matches StoreError::NoSuch { what, id: i } && what@
                == "task"@ && i@ == id_text("t"@, id.0)),
            Some(TaskState::Running { .. }) => out == Ok::<TaskState, StoreError>(
                TaskState::Completed { result, at: now },
            ),
            Some(s) => out == Err::<TaskState, StoreError>(StoreError::NotRunning { task: id, state: state_name(s) }),
        },
{
    match current {
        None => Err(StoreError::NoSuch { what: "task", id: id.to_string() }),
        Some(TaskState::Running { .. }) => Ok(TaskState::Completed { result, at: now }),
        Some(s) => Err(StoreError::NotRunning { task: id, state: s.name() }),
    }
}

/// A cancelled Task never completes, and no Task completes twice: completion
/// succeeds only from `Running`.
pub proof fn law_completion_only_from_running(current: TaskState, result: TaskResult, now: Timestamp)
    ensures
        (completion_of(Some(current), result, now) is Some) <==> current is Running,
        terminal(current) ==> completion_of(Some(current), result, now) is None,
{
}

/// Whether a cancellation reaches a Task in `current`: one that exists and
/// has not ended.
pub open spec fn reaches(current: Option<TaskState>) -> bool {
    match current {
        Some(s) => !terminal(s),
        None => false,
    }
}

/// Whether cancelling the Task changes anything; missing and ended Tasks
/// are skipped.
pub fn cancels(current: &Option<TaskState>) -> (b: bool)
    ensures
        b == reaches(*current),
{
    match current {
        Some(s) => !s.is_terminal(),
        None => false,
    }
}

/// What a Task left by a dead Run becomes: a running Task is cancelled at
/// `now`; any other is left alone.
pub open spec fn recovered_task(state: TaskState, now: Timestamp) -> Option<TaskState> {
    match state {
        TaskState::Running { .. } => Some(TaskState::Cancelled { at: now }),
        _ => None,
    }
}

/// The new state, if any, of a Task left by a dead Run.
pub fn recover_task(state: &TaskState, now: Timestamp) -> (out: Option<TaskState>)
    ensures
        out == recovered_task(*state, now),
{
    match state {
        TaskState::Running { .. } => Some(TaskState::Cancelled { at: now }),
        _ => None,
    }
}

/// What a call left by a dead Run becomes: queued or in flight, it is dropped
/// at `now` and Spend ignores it; any other is left alone.
pub open spec fn recovered_call(status: CallStatus, now: Timestamp) -> Option<CallStatus> {
    match status {
        CallStatus::Queued => Some(CallStatus::Dropped { at: now }),
        CallStatus::InFlight { .. } => Some(CallStatus::Dropped { at: now }),
        _ => None,
    }
}

/// The new status, if any, of a call left by a dead Run.
pub fn recover_call(status: &CallStatus, now: Timestamp) -> (out: Option<CallStatus>)
    ensures
        out == recovered_call(*status, now),
{
    match status {
        CallStatus::Queued => Some(CallStatus::Dropped { at: now }),
        CallStatus::InFlight { .. } => Some(CallStatus::Dropped { at: now }),
        _ => None,
    }
}

/// What a Session left open by a dead Run becomes: cancelled; one that has
/// ended is left alone.
pub fn recover_session(ended: bool) -> (out: Option<SessionStatus>)
    ensures
        ended ==> out is None,
        !ended ==> out == Some(SessionStatus::Cancelled),
{
    if ended {
        None
    } else {
        Some(SessionStatus::Cancelled)
    }
}

/// Recovery leaves nothing in flight: after it, no Task is running and no
/// call is queued or out with the model.
pub proof fn law_recovery_leaves_nothing_in_flight(state: TaskState, status: CallStatus, now: Timestamp)
    ensures
        match recovered_task(state, now) {
            Some(s) => !(s is Running) && terminal(s),
            None => !(state is Running),
        },
        match recovered_call(status, now) {
            Some(c) => c is Dropped,
            None => !(status is Queued) && !(status is InFlight),
        },
{
}

/// Who awaits the answer of a Task made by `created_by`: the Channel of the
/// Session that made it, where that Session stands on one; a cron Task's
/// daughter inherits its mother's; nobody for the command line or the
/// control socket.
pub open spec fn subscriber_for(created_by: Creator, creator_channel: Option<ChannelId>, mother: Option<ChannelId>) -> Option<ChannelId> {
    match created_by {
        Creator::Session(_) => creator_channel,
        Creator::CronTask(_) => mother,
        _ => None,
    }
}

/// Derives the subscriber of a new Task. `creator_channel` is the Channel of
/// the creating Session, if it has one; `mother` the subscriber of the cron
/// Task that made it, if any.
pub fn subscriber_of(created_by: Creator, creator_channel: Option<ChannelId>, mother: Option<ChannelId>) -> (out: Option<ChannelId>)
    ensures
        out == subscriber_for(created_by, creator_channel, mother),
{
    match created_by {
        Creator::Session(_) => creator_channel,
        Creator::CronTask(_) => mother,
        _ => None,
    }
}

/// The daughter a cron Task's occurrence makes: everything but the schedule,
/// due now, naming the cron Task as its creator.
pub fn daughter_of(cron: &Task) -> (out: NewTask)
    ensures
        out.title@ == cron.title@,
        out.brief@ == cron.brief@,
        out.role == cron.role,
        out.priority == cron.priority,
        out.schedule == Schedule::Now,
        out.created_by == Creator::CronTask(cron.id),
{
    NewTask {
        title: cron.title.clone(),
        brief: cron.brief.clone(),
        role: cron.role,
        schedule: Schedule::Now,
        priority: cron.priority,
        created_by: Creator::CronTask(cron.id),
    }
}

/// Whether `d` is the daughter a cron Task's occurrence makes.
pub open spec fn is_daughter(cron: Task, d: NewTask) -> bool {
    &&& d.title@ == cron.title@
    &&& d.brief@ == cron.brief@
    &&& d.role == cron.role
    &&& d.priority == cron.priority
    &&& d.schedule == Schedule::Now
    &&& d.created_by == Creator::CronTask(cron.id)
}

/// What firing a cron Task does to the queue.
#[derive(Debug)]
pub enum Firing {
    /// The expression has no occurrence left: the cron Task takes this
    /// state, cancelled now, rather than staying due forever; nothing is
    /// added.
    Retire(TaskState),
    /// A daughter due now is added with this subscriber, and the cron Task
    /// stays `Pending` with its schedule re-armed.
    Spawn { daughter: NewTask, subscriber: Option<ChannelId>, rearmed: Schedule },
}

/// What firing a cron Task does, given what re-arming its schedule gave:
/// nothing left retires it, cancelled at `now`; a next occurrence adds a
/// daughter due now, which answers to the cron Task's subscriber, and keeps
/// the re-armed schedule.
pub fn firing(cron: &Task, rearmed: Option<Schedule>, now: Timestamp) -> (out: Firing)
    ensures
        match rearmed {
            None => out == Firing::Retire(TaskState::Cancelled { at: now }),
            Some(s) => out matches Firing::Spawn { daughter, subscriber, rearmed: r } && r == s
                && is_daughter(*cron, daughter) && subscriber == cron.subscriber,
        },
{
    match rearmed {
        None => Firing::Retire(TaskState::Cancelled { at: now }),
        Some(s) => {
            let daughter = daughter_of(cron);
            let subscriber = subscriber_of(daughter.created_by, None, cron.subscriber);
            Firing::Spawn { daughter, subscriber, rearmed: s }
        },
    }
}

/// Fires a cron Task at `now`: re-arms its schedule for the next occurrence
/// after `now` and decides by what that gave. Whether an occurrence is left,
/// and which, is croner's answer in the machine's local time; whatever it
/// is, the cron Task is either retired, cancelled at `now`, or it spawns its
/// daughter and keeps the same expression, next due after `now`.
pub fn fire(cron: &Task, now: Timestamp) -> (out: Firing)
    ensures
        !(cron.schedule is Cron) ==> out == Firing::Retire(TaskState::Cancelled { at: now }),
        out is Retire ==> out == Firing::Retire(TaskState::Cancelled { at: now }),
        out matches Firing::Spawn { daughter, subscriber, rearmed } ==> {
            &&& is_daughter(*cron, daughter)
            &&& subscriber == cron.subscriber
            &&& cron.schedule is Cron
            &&& rearmed is Cron
            &&& rearmed->expr == cron.schedule->expr
            &&& rearmed->next.0 > now.0
        },
{
    let rearmed = cron.schedule.re_armed(now);
    firing(cron, rearmed, now)
}

/// How long until the earliest pending Task is due, given when that is (a
/// Task with no time is due now); none when nothing is pending.
pub fn next_due_in(earliest: Option<Timestamp>, now: Timestamp) -> (out: Option<Duration>)
    requires
        earliest matches Some(t) ==> i64::MIN <= t.0 - now.0 <= i64::MAX,
    ensures
        match earliest {
            Some(t) => out == Some(Duration(if t.0 >= now.0 {
                (t.0 - now.0) as i64
            } else {
                0
            })),
            None => out is None,
        },
{
    match earliest {
        Some(t) => Some(now.until(t)),
        None => None,
    }
}

/// What finished calls spent: their number, the tokens computed
/// (`prefill + produced`: a cache hit is not work), and their cost. Calls
/// that did not finish well are not counted.
pub open spec fn spent(calls: Seq<CallStatus>) -> (int, int, int)
    decreases calls.len(),
{
    if calls.len() == 0 {
        (0, 0, 0)
    } else {
        let before = spent(calls.drop_last());
        match calls.last() {
            CallStatus::Done { usage, .. } => (
                before.0 + 1,
                before.1 + usage.prefill + usage.produced,
                before.2 + usage.cost.0,
            ),
            _ => before,
        }
    }
}

/// Whether every running total of `spent` over a prefix of `calls` fits the
/// fields of a `Spend`.
pub open spec fn spend_fits(calls: Seq<CallStatus>) -> bool {
    forall|k: int|
        0 <= k <= calls.len() ==> {
            let s = #[trigger] spent(calls.take(k));
            &&& s.0 <= u32::MAX
            &&& s.1 <= u64::MAX
            &&& i64::MIN <= s.2 <= i64::MAX
        }
}

/// Re-sums a Run's spend from its calls.
pub fn spend_of(calls: &Vec<CallStatus>) -> (out: Spend)
    requires
        spend_fits(calls@),
    ensures
        out.calls == spent(calls@).0,
        out.tokens == spent(calls@).1,
        out.cost.0 == spent(calls@).2,
{
    let mut n: u32 = 0;
    let mut tokens: u64 = 0;
    let mut cost: i64 = 0;
    let mut i: usize = 0;
    while i < calls.len()
        invariant
            i <= calls.len(),
            spend_fits(calls@),
            n == spent(calls@.take(i as int)).0,
            tokens == spent(calls@.take(i as int)).1,
            cost == spent(calls@.take(i as int)).2,
        decreases calls.len() - i,
    {
        assert(calls@.take(i + 1).drop_last() =~= calls@.take(i as int));
        let ghost next = spent(calls@.take(i + 1));
        assert(next.0 <= u32::MAX && next.1 <= u64::MAX && i64::MIN <= next.2 <= i64::MAX);
        match &calls[i] {
            CallStatus::Done { usage, .. } => {
                n = n + 1;
                tokens = tokens + usage.prefill + usage.produced;
                cost = cost + usage.cost.0;
            },
            _ => {},
        }
        i = i + 1;
    }
    assert(calls@.take(calls.len() as int) =~= calls@);
    Spend { calls: n, tokens, cost: Cost(cost) }
}

/// Re-sums a Run's spend from its calls where every running total fits a
/// `Spend`; `None` where one does not, since the stored calls are then not
/// what any Run could have made.
pub fn checked_spend(calls: &Vec<CallStatus>) -> (out: Option<Spend>)
    ensures
        out is Some <==> spend_fits(calls@),
        out matches Some(s) ==> s.calls == spent(calls@).0 && s.tokens == spent(calls@).1 && s.cost.0
            == spent(calls@).2,
{
    let mut n: i128 = 0;
    let mut tokens: i128 = 0;
    let mut cost: i128 = 0;
    let mut i: usize = 0;
    assert(spent(calls@.take(0)) == (0int, 0int, 0int));
    while i < calls.len()
        invariant
            i <= calls.len(),
            n == spent(calls@.take(i as int)).0,
            tokens == spent(calls@.take(i as int)).1,
            cost == spent(calls@.take(i as int)).2,
            forall|k: int|
                0 <= k <= i ==> {
                    let s = #[trigger] spent(calls@.take(k));
                    &&& s.0 <= u32::MAX
                    &&& s.1 <= u64::MAX
                    &&& i64::MIN <= s.2 <= i64::MAX
                },
        decreases calls.len() - i,
    {
        assert(calls@.take(i + 1).drop_last() =~= calls@.take(i as int));
        match &calls[i] {
            CallStatus::Done { usage, .. } => {
                n = n + 1;
                tokens = tokens + usage.prefill as i128 + usage.produced as i128;
                cost = cost + usage.cost.0 as i128;
            },
            _ => {},
        }
        if n > u32::MAX as i128 || tokens > u64::MAX as i128 || cost > i64::MAX as i128 || cost
            < i64::MIN as i128 {
            assert(!spend_fits(calls@)) by {
                let s = spent(calls@.take(i + 1));
                assert(!(s.0 <= u32::MAX && s.1 <= u64::MAX && i64::MIN <= s.2 <= i64::MAX));
            }
            return None;
        }
        i = i + 1;
    }
    assert(calls@.take(calls.len() as int) =~= calls@);
    Some(spend_of(calls))
}

/// Whether a listing asking for `state` shows `t`.
pub open spec fn shown(t: Task, state: Option<TaskStateName>) -> bool {
    match state {
        None => true,
        Some(s) => state_name(t.state) == s,
    }
}

/// The Tasks a listing asking for `state` shows, in the order given.
pub open spec fn kept(tasks: Seq<Task>, state: Option<TaskStateName>) -> Seq<Task>
    decreases tasks.len(),
{
    if tasks.len() == 0 {
        Seq::empty()
    } else {
        kept(tasks.drop_last(), state) + if shown(tasks.last(), state) {
            seq![tasks.last()]
        } else {
            Seq::empty()
        }
    }
}

/// At most `count` of these, the first ones, or all where no count is given.
pub open spec fn at_most(s: Seq<Task>, count: Option<usize>) -> Seq<Task> {
    match count {
        Some(n) => if n < s.len() {
            s.take(n as int)
        } else {
            s
        },
        None => s,
    }
}

/// A Task as a listing shows it.
pub open spec fn summary(t: Task) -> TaskSummary {
    TaskSummary {
        id: t.id,
        title: t.title,
        role: t.role,
        state: t.state,
        schedule: t.schedule,
        created_at: t.created_at,
    }
}

/// What a listing shows of `tasks`: those in the asked-for state, the first
/// `count` of them where a count is given, each as its summary.
pub open spec fn listing(tasks: Seq<Task>, filter: ListFilter) -> Seq<TaskSummary> {
    at_most(kept(tasks, filter.state), filter.count).map_values(|t: Task| summary(t))
}

/// Lists `tasks`, in the order given, as `filter` asks.
pub fn list_of(tasks: Vec<Task>, filter: &ListFilter) -> (out: Vec<TaskSummary>)
    ensures
        out@ == listing(tasks@, *filter),
{
    let ghost all = tasks@;
    let len = tasks.len();
    let mut rest = tasks;
    let mut out: Vec<TaskSummary> = Vec::new();
    let mut taken: usize = 0;
    let mut i: usize = 0;
    while i < len
        invariant
            len == all.len(),
            i <= all.len(),
            rest@ == all.skip(i as int),
            taken == kept(all.take(i as int), filter.state).len(),
            out@ == at_most(kept(all.take(i as int), filter.state), filter.count).map_values(|t: Task| summary(t)),
        decreases all.len() - i,
    {
        let ghost k = kept(all.take(i as int), filter.state);
        assert(all.take(i + 1).drop_last() =~= all.take(i as int));
        assert(all.take(i + 1).last() == all[i as int]);
        let t = rest.remove(0);
        assert(rest@ =~= all.skip(i + 1));
        let wanted = match filter.state {
            None => true,
            Some(s) => t.state.name() == s,
        };
        if wanted {
            let ghost k2 = k + seq![t];
            assert(kept(all.take(i + 1), filter.state) == k2);
            let room = match filter.count {
                None => true,
                Some(n) => taken < n,
            };
            if room {
                assert(at_most(k2, filter.count) =~= at_most(k, filter.count) + seq![t]);
                out.push(TaskSummary {
                    id: t.id,
                    title: t.title,
                    role: t.role,
                    state: t.state,
                    schedule: t.schedule,
                    created_at: t.created_at,
                });
                assert(out@ =~= at_most(k2, filter.count).map_values(|t: Task| summary(t)));
            } else {
                assert(at_most(k2, filter.count) =~= at_most(k, filter.count));
            }
            assert(taken < usize::MAX) by {
                assert(k.len() <= i) by {
                    lemma_kept_len(all.take(i as int), filter.state);
                }
            }
            taken = taken + 1;
        } else {
            assert(kept(all.take(i + 1), filter.state) =~= k);
        }
        i = i + 1;
    }
    assert(all.take(all.len() as int) =~= all);
    out
}

/// A listing keeps no more Tasks than it was given.
proof fn lemma_kept_len(tasks: Seq<Task>, state: Option<TaskStateName>)
    ensures
        kept(tasks, state).len() <= tasks.len(),
    decreases tasks.len(),
{
    if tasks.len() > 0 {
        lemma_kept_len(tasks.drop_last(), state);
    }
}

/// Whether `t` may run at `now`: it is pending and its time, if it has one,
/// has come.
pub open spec fn due(t: Task, now: Timestamp) -> bool {
    &&& t.state is Pending
    &&& match schedule_not_before(t.schedule) {
        None => true,
        Some(nb) => nb.0 <= now.0,
    }
}

/// The time a Task is queued by: its `not_before`, or zero where it has none.
pub open spec fn queue_time(t: Task) -> int {
    match schedule_not_before(t.schedule) {
        None => 0,
        Some(nb) => nb.0 as int,
    }
}

/// Whether `a` is taken before `b`: earlier queue time first, then the older
/// id. The queue picks by time only.
pub open spec fn taken_before(a: Task, b: Task) -> bool {
    queue_time(a) < queue_time(b) || (queue_time(a) == queue_time(b) && a.id.0 <= b.id.0)
}

/// The Task the queue hands out next at `now`, by its index in `tasks`: a due
/// Task that goes before every other due Task; none where nothing is due.
pub fn pick_next(tasks: &Vec<Task>, now: Timestamp) -> (out: Option<usize>)
    ensures
        out is None <==> forall|j: int| 0 <= j < tasks@.len() ==> !due(#[trigger] tasks@[j], now),
        out matches Some(i) ==> i < tasks@.len() && due(tasks@[i as int], now) && forall|j: int|
            0 <= j < tasks@.len() && due(#[trigger] tasks@[j], now) ==> taken_before(tasks@[i as int], tasks@[j]),
{
    let mut best: Option<usize> = None;
    let mut i: usize = 0;
    while i < tasks.len()
        invariant
            i <= tasks.len(),
            best is None <==> forall|j: int| 0 <= j < i ==> !due(#[trigger] tasks@[j], now),
            best matches Some(b) ==> b < i && due(tasks@[b as int], now) && forall|j: int|
                0 <= j < i && due(#[trigger] tasks@[j], now) ==> taken_before(tasks@[b as int], tasks@[j]),
        decreases tasks.len() - i,
    {
        let t = &tasks[i];
        let nb = t.schedule.not_before();
        let pending = match t.state {
            TaskState::Pending => true,
            _ => false,
        };
        let is_due = pending && match nb {
            None => true,
            Some(n) => n.0 <= now.0,
        };
        if is_due {
            let key: i64 = match nb {
                None => 0,
                Some(n) => n.0,
            };
            match best {
                None => {
                    best = Some(i);
                },
                Some(b) => {
                    let bk: i64 = match tasks[b].schedule.not_before() {
                        None => 0,
                        Some(n) => n.0,
                    };
                    if key < bk || (key == bk && t.id.0 < tasks[b].id.0) {
                        best = Some(i);
                    }
                },
            }
        }
        i = i + 1;
    }
    best
}

} // verus!
