//! One process lifetime, as the database records it.
use vstd::prelude::*;

use crate::domain::ids::RunId;
use crate::domain::time::Timestamp;

verus! {

/// One process lifetime. `ended_at` is `None` while running, and after a
/// killed process — indistinguishable, accepted.
#[derive(Debug, Clone, PartialEq, Eq)]
pub struct Run {
    pub id: RunId,
    pub started_at: Timestamp,
    pub ended_at: Option<Timestamp>,
    /// Model this Run used.
    pub model: String,
}

} // verus!
