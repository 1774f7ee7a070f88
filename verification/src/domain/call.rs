//! One model exchange, visible from queue time to finish.
//!
//! ```text
//! queue_call(NewCall) → Queued → InFlight {sent_at} → Done | Failed
//! recover (new Run)  → Dropped {at} for anything still Queued | InFlight
//! ```
//! Only `Done` contributes to Spend; `Done` always has a reply and usage.
use vstd::prelude::*;

use crate::domain::message::Reply;
use crate::domain::time::{Cost, Timestamp};

verus! {

/// Lifecycle of a call, and data valid in each state.
#[derive(Debug, Clone, PartialEq)]
pub enum CallStatus {
    /// Waiting for the one scheduler slot.
    Queued,
    /// Out with the model.
    InFlight { sent_at: Timestamp },
    /// Succeeded with reply and usage.
    Done { sent_at: Timestamp, finished_at: Timestamp, reply: Reply, usage: Usage },
    /// Failed after one attempt; no retry.
    Failed { sent_at: Timestamp, finished_at: Timestamp, error: String },
    /// Abandoned by a dead Run; ignored by Spend.
    Dropped { at: Timestamp },
}

/// Tokens and cost of one finished call: `cached` prompt tokens came from the
/// provider's cache, `prefill` were processed for this call.
#[derive(Debug, Clone, Copy, PartialEq, Eq, Structural)]
pub struct Usage {
    pub cached: u64,
    pub prefill: u64,
    pub produced: u64,
    pub cost: Cost,
}

impl Default for Usage {
    fn default() -> (u: Usage)
        ensures
            u == (Usage { cached: 0, prefill: 0, produced: 0, cost: Cost(0) }),
    {
        Usage { cached: 0, prefill: 0, produced: 0, cost: Cost(0) }
    }
}

/// The usage of a call if it finished successfully.
pub open spec fn status_usage(s: CallStatus) -> Option<Usage> {
    match s {
        CallStatus::Done { usage, .. } => Some(usage),
        _ => None,
    }
}

/// Whether a call still expects a result.
pub open spec fn outstanding(s: CallStatus) -> bool {
    s is Queued || s is InFlight
}

/// The name a call status is stored as.
pub open spec fn call_status_tag(s: CallStatus) -> Seq<char> {
    match s {
        CallStatus::Queued => "queued"@,
        CallStatus::InFlight { .. } => "in_flight"@,
        CallStatus::Done { .. } => "done"@,
        CallStatus::Failed { .. } => "failed"@,
        CallStatus::Dropped { .. } => "dropped"@,
    }
}

impl CallStatus {
    /// Usage if this call finished successfully: `Some` only for `Done`.
    pub fn usage(&self) -> (out: Option<Usage>)
        ensures
            out == status_usage(*self),
    {
        match self {
            CallStatus::Done { usage, .. } => Some(*usage),
            _ => None,
        }
    }

    /// Whether this call still expects a result: `Queued` or `InFlight`.
    pub fn is_outstanding(&self) -> (b: bool)
        ensures
            b == outstanding(*self),
    {
        match self {
            CallStatus::Queued | CallStatus::InFlight { .. } => true,
            _ => false,
        }
    }

    /// The name the status is stored as.
    pub fn tag(&self) -> (s: &'static str)
        ensures
            s@ == call_status_tag(*self),
    {
        match self {
            CallStatus::Queued => "queued",
            CallStatus::InFlight { .. } => "in_flight",
            CallStatus::Done { .. } => "done",
            CallStatus::Failed { .. } => "failed",
            CallStatus::Dropped { .. } => "dropped",
        }
    }
}

} // verus!
