//! One slot in front of the models, ordered by [`Tier`] then arrival.
use vstd::prelude::*;

use crate::domain::call::CallStatus;
use crate::domain::ids::CallId;
use crate::domain::message::Completion;
use crate::domain::task::TaskPriority;
use crate::domain::time::Timestamp;
use crate::model::{model_error_text, ModelError};
use crate::store::{store_error_text, StoreError};

verus! {

/// Queue position. Lower runs first; declaration order is the policy and the
/// stored value is its rank, 1 to 5.
#[derive(Debug, Clone, Copy, PartialEq, Eq, PartialOrd, Ord, Hash, Structural)]
pub enum Tier {
    /// A human is never left behind the swarm.
    Comms,
    /// A Worker on a `high` priority Task.
    TaskHigh,
    /// Review or interrupt — not held behind ordinary work.
    Metacognition,
    /// A Worker on a `normal` priority Task.
    TaskNormal,
    /// A Worker on a `low` priority Task.
    TaskLow,
}

/// A tier's rank: 1 runs first, 5 last.
pub open spec fn tier_rank(t: Tier) -> u8 {
    match t {
        Tier::Comms => 1,
        Tier::TaskHigh => 2,
        Tier::Metacognition => 3,
        Tier::TaskNormal => 4,
        Tier::TaskLow => 5,
    }
}

/// The tier a Worker's calls wait at, from its Task's priority.
pub open spec fn priority_tier(p: TaskPriority) -> Tier {
    match p {
        TaskPriority::High => Tier::TaskHigh,
        TaskPriority::Normal => Tier::TaskNormal,
        TaskPriority::Low => Tier::TaskLow,
    }
}

impl Tier {
    /// The stored value, 1 to 5.
    pub fn rank(&self) -> (n: u8)
        ensures
            n == tier_rank(*self),
    {
        match self {
            Tier::Comms => 1,
            Tier::TaskHigh => 2,
            Tier::Metacognition => 3,
            Tier::TaskNormal => 4,
            Tier::TaskLow => 5,
        }
    }

    /// The tier a stored value names; `None` outside 1 to 5.
    pub fn from_rank(n: u8) -> (t: Option<Tier>)
        ensures
            match t {
                Some(tier) => tier_rank(tier) == n,
                None => n < 1 || n > 5,
            },
    {
        match n {
            1 => Some(Tier::Comms),
            2 => Some(Tier::TaskHigh),
            3 => Some(Tier::Metacognition),
            4 => Some(Tier::TaskNormal),
            5 => Some(Tier::TaskLow),
            _ => None,
        }
    }

    /// The tier a Worker's calls wait at, from its Task's priority.
    pub fn from(p: TaskPriority) -> (t: Tier)
        ensures
            t == priority_tier(p),
    {
        match p {
            TaskPriority::High => Tier::TaskHigh,
            TaskPriority::Normal => Tier::TaskNormal,
            TaskPriority::Low => Tier::TaskLow,
        }
    }
}

} // verus!

verus! {

/// One queued call waiting for the slot: its tier and its arrival number.
#[derive(Debug, Clone, Copy, PartialEq, Eq, Structural)]
pub struct Waiting {
    pub tier: Tier,
    pub arrival: u64,
}

/// Whether `a` goes before `b`: lower tier rank first, then earlier arrival.
pub open spec fn goes_before(a: Waiting, b: Waiting) -> bool {
    tier_rank(a.tier) < tier_rank(b.tier) || (tier_rank(a.tier) == tier_rank(b.tier) && a.arrival
        < b.arrival)
}

/// The one slot in front of the models and the calls waiting for it. Only
/// `try_grant` decides who runs next; the caller wakes the waiter whose
/// arrival number it returns.
#[derive(Debug)]
pub struct SlotQueue {
    /// Whether the one slot is taken.
    in_flight: bool,
    /// Counts up, never down — arrival order within a tier.
    next_arrival: u64,
    waiting: Vec<Waiting>,
}

impl SlotQueue {
    /// Whether the slot is taken.
    pub closed spec fn busy(&self) -> bool {
        self.in_flight
    }

    /// The calls waiting, in the order they arrived.
    pub closed spec fn queue(&self) -> Seq<Waiting> {
        self.waiting@
    }

    /// The arrival number the next call gets.
    pub closed spec fn next(&self) -> u64 {
        self.next_arrival
    }

    /// Every waiting call arrived before the next number and has a number of
    /// its own.
    pub open spec fn wf(&self) -> bool {
        &&& forall|i: int| 0 <= i < self.queue().len() ==> #[trigger] self.queue()[i].arrival < self.next()
        &&& forall|i: int, j: int|
            0 <= i < self.queue().len() && 0 <= j < self.queue().len() && i != j ==> #[trigger] self.queue()[i].arrival
                != #[trigger] self.queue()[j].arrival
    }

    /// No call waiting and the slot free.
    pub fn new() -> (q: SlotQueue)
        ensures
            !q.busy(),
            q.queue() == Seq::<Waiting>::empty(),
            q.next() == 0,
            q.wf(),
    {
        SlotQueue { in_flight: false, next_arrival: 0, waiting: Vec::new() }
    }

    /// Number of calls waiting for the slot.
    pub fn waiting(&self) -> (n: usize)
        ensures
            n == self.queue().len(),
    {
        self.waiting.len()
    }

    /// Registers a call at `tier`, then grants the slot if it is free. Returns
    /// the call's arrival number and the arrival granted, if any.
    pub fn acquire(&mut self, tier: Tier) -> (out: (u64, Option<u64>))
        requires
            old(self).wf(),
            old(self).next() < u64::MAX,
        ensures
            final(self).wf(),
            out.0 == old(self).next(),
            final(self).next() == old(self).next() + 1,
            grant_step(
                old(self).busy(),
                old(self).queue().push(Waiting { tier, arrival: out.0 }),
                final(self).busy(),
                final(self).queue(),
                out.1,
            ),
    {
        let arrival = self.next_arrival;
        self.next_arrival = self.next_arrival + 1;
        self.waiting.push(Waiting { tier, arrival });
        let granted = self.try_grant();
        (arrival, granted)
    }

    /// Frees the slot and hands it to the first waiting call, if any.
    pub fn release(&mut self) -> (granted: Option<u64>)
        requires
            old(self).wf(),
        ensures
            final(self).wf(),
            final(self).next() == old(self).next(),
            grant_step(false, old(self).queue(), final(self).busy(), final(self).queue(), granted),
    {
        self.in_flight = false;
        self.try_grant()
    }

    /// Grants the slot to the waiting call that goes first, if the slot is free.
    pub fn try_grant(&mut self) -> (granted: Option<u64>)
        requires
            old(self).wf(),
        ensures
            final(self).wf(),
            final(self).next() == old(self).next(),
            grant_step(old(self).busy(), old(self).queue(), final(self).busy(), final(self).queue(), granted),
    {
        if self.in_flight || self.waiting.len() == 0 {
            return None;
        }
        let mut best: usize = 0;
        let mut i: usize = 1;
        while i < self.waiting.len()
            invariant
                1 <= i <= self.waiting.len(),
                best < i,
                self.wf(),
                forall|j: int| 0 <= j < i && j != best ==> goes_before(self.waiting@[best as int], #[trigger] self.waiting@[j]),
            decreases self.waiting.len() - i,
        {
            let w = self.waiting[i];
            let b = self.waiting[best];
            let wr = w.tier.rank();
            let br = b.tier.rank();
            if wr < br || (wr == br && w.arrival < b.arrival) {
                assert(self.waiting@[i as int].arrival != self.waiting@[best as int].arrival);
                best = i;
            } else {
                assert(self.waiting@[i as int].arrival != self.waiting@[best as int].arrival);
            }
            i = i + 1;
        }
        let ghost before = self.waiting@;
        let winner = self.waiting.remove(best);
        self.in_flight = true;
        proof {
            assert(self.waiting@ =~= before.remove(best as int));
            assert forall|a: int, b: int|
                0 <= a < self.waiting@.len() && 0 <= b < self.waiting@.len() && a != b implies #[trigger] self.waiting@[a].arrival
                    != #[trigger] self.waiting@[b].arrival by {
                let a2 = if a < best { a } else { a + 1 };
                let b2 = if b < best { b } else { b + 1 };
                assert(self.waiting@[a] == before[a2]);
                assert(self.waiting@[b] == before[b2]);
            }
            assert forall|a: int| 0 <= a < self.waiting@.len() implies #[trigger] self.waiting@[a].arrival < self.next_arrival by {
                let a2 = if a < best { a } else { a + 1 };
                assert(self.waiting@[a] == before[a2]);
            }
        }
        Some(winner.arrival)
    }
}

/// What one grant decision does to the slot and the queue: nothing when the
/// slot is taken or no call waits; otherwise the call that goes before every
/// other waiting call leaves the queue, takes the slot, and its arrival is
/// returned.
pub open spec fn grant_step(
    busy: bool,
    queue: Seq<Waiting>,
    busy_after: bool,
    queue_after: Seq<Waiting>,
    granted: Option<u64>,
) -> bool {
    if busy || queue.len() == 0 {
        &&& granted is None
        &&& busy_after == busy
        &&& queue_after == queue
    } else {
        exists|i: int|
            0 <= i < queue.len() && granted == Some(#[trigger] queue[i].arrival) && busy_after && queue_after
                == queue.remove(i) && forall|j: int| 0 <= j < queue.len() && j != i ==> goes_before(queue[i], #[trigger] queue[j])
    }
}

/// A higher tier jumps the queue but never preempts: while a call is in
/// flight, no grant happens and nothing waiting moves.
pub proof fn law_in_flight_is_never_preempted(queue: Seq<Waiting>, busy_after: bool, queue_after: Seq<Waiting>, granted: Option<u64>)
    requires
        grant_step(true, queue, busy_after, queue_after, granted),
    ensures
        granted is None,
        busy_after,
        queue_after == queue,
{
}

/// The call granted goes before every call still waiting: lower tier first,
/// and within one tier, earlier arrival first.
pub proof fn law_grant_goes_first(busy: bool, queue: Seq<Waiting>, busy_after: bool, queue_after: Seq<Waiting>, a: u64)
    requires
        grant_step(busy, queue, busy_after, queue_after, Some(a)),
    ensures
        busy_after,
        !busy,
        exists|w: Waiting|
            queue.contains(w) && w.arrival == a && forall|k: int|
                0 <= k < queue_after.len() ==> goes_before(w, #[trigger] queue_after[k]),
{
    let i = choose|i: int|
        0 <= i < queue.len() && Some(a) == Some(#[trigger] queue[i].arrival) && busy_after && queue_after
            == queue.remove(i) && forall|j: int| 0 <= j < queue.len() && j != i ==> goes_before(queue[i], #[trigger] queue[j]);
    let w = queue[i];
    assert(queue.contains(w));
    assert forall|k: int| 0 <= k < queue_after.len() implies goes_before(w, #[trigger] queue_after[k]) by {
        let k2 = if k < i { k } else { k + 1 };
        assert(queue_after[k] == queue[k2]);
    }
}

/// Why a model call through the scheduler failed.
#[derive(Debug, Clone, PartialEq, Eq)]
pub enum SchedulerError {
    /// The model call failed; it was recorded under `call`.
    Call { call: CallId, source: ModelError },
    /// The Store failed.
    Store(StoreError),
}

/// The sentence a scheduler error reads as: the model's or the Store's.
pub open spec fn scheduler_error_text(e: SchedulerError) -> Seq<char> {
    match e {
        SchedulerError::Call { source, .. } => model_error_text(source),
        SchedulerError::Store(s) => store_error_text(s),
    }
}

impl SchedulerError {
    /// The sentence this error reads as.
    pub fn message(&self) -> (out: String)
        ensures
            out@ == scheduler_error_text(*self),
    {
        match self {
            SchedulerError::Call { source, .. } => source.message(),
            SchedulerError::Store(s) => s.message(),
        }
    }
}

/// How a call that went out is settled: a completion is recorded as done
/// with its usage, a failure as failed with the model's words; either way
/// with when it was sent and when it came back.
pub fn settle(call: CallId, sent_at: Timestamp, finished_at: Timestamp, outcome: Result<Completion, ModelError>) -> (out: (CallStatus, Result<Completion, SchedulerError>))
    ensures
        match outcome {
            Ok(c) => (out.0 matches CallStatus::Done { sent_at: s, finished_at: f, usage: u, .. } && s
                == sent_at && f == finished_at && u == c.usage) && out.1 == Ok::<
                Completion,
                SchedulerError,
            >(c),
            Err(e) => (out.0 matches CallStatus::Failed { sent_at: s, finished_at: f, error: w } && s
                == sent_at && f == finished_at && w@ == model_error_text(e)) && out.1 == Err::<
                Completion,
                SchedulerError,
            >(SchedulerError::Call { call, source: e }),
        },
{
    match outcome {
        Ok(completion) => {
            let status = CallStatus::Done {
                sent_at,
                finished_at,
                reply: completion.reply.clone(),
                usage: completion.usage,
            };
            (status, Ok(completion))
        },
        Err(error) => {
            let status = CallStatus::Failed { sent_at, finished_at, error: error.message() };
            (status, Err(SchedulerError::Call { call, source: error }))
        },
    }
}

} // verus!
