//! The bench: cases that drive a real or scripted swarm and judge what it
//! did. What is decided here is how a run is judged and reported: which
//! checks passed, what a grader's reply means, and how runs are summed up.
pub mod cases;
pub mod color;
pub mod grader;
pub mod report;

use vstd::prelude::*;

use crate::store::{store_error_text, StoreError};
use crate::strings::{decimal, decimal_chars, owned, push_chars, push_str, string_of};

verus! {

/// Why a case stopped before it could be judged.
#[derive(Debug, Clone, PartialEq, Eq)]
pub enum Trip {
    /// A tripwire the case set went off.
    Tripwire { name: String, detail: String },
    /// Something the case waited for did not happen in time.
    Timeout { what: String },
    /// The whole case ran past its bound.
    CaseTimeout { seconds: u64 },
    /// The Store failed.
    Store(StoreError),
}

/// The sentence a trip reads as.
pub open spec fn trip_text(t: Trip) -> Seq<char> {
    match t {
        Trip::Tripwire { name, detail } => "tripwire `"@ + name@ + "`: "@ + detail@,
        Trip::Timeout { what } => "timed out waiting for "@ + what@,
        Trip::CaseTimeout { seconds } => "the whole case ran past its "@ + decimal(seconds as nat)
            + "s bound"@,
        Trip::Store(e) => store_error_text(e),
    }
}

impl Trip {
    /// The sentence this trip reads as.
    pub fn message(&self) -> (out: String)
        ensures
            out@ == trip_text(*self),
    {
        match self {
            Trip::Tripwire { name, detail } => {
                let mut v: Vec<char> = Vec::new();
                push_str(&mut v, "tripwire `");
                push_str(&mut v, name.as_str());
                push_str(&mut v, "`: ");
                push_str(&mut v, detail.as_str());
                string_of(&v)
            },
            Trip::Timeout { what } => {
                let mut v: Vec<char> = Vec::new();
                push_str(&mut v, "timed out waiting for ");
                push_str(&mut v, what.as_str());
                string_of(&v)
            },
            Trip::CaseTimeout { seconds } => {
                let mut v: Vec<char> = Vec::new();
                push_str(&mut v, "the whole case ran past its ");
                let d = decimal_chars(*seconds);
                push_chars(&mut v, &d);
                push_str(&mut v, "s bound");
                string_of(&v)
            },
            Trip::Store(e) => e.message(),
        }
    }
}

/// One check a case made of what the swarm did.
#[derive(Debug, Clone, PartialEq, Eq)]
pub struct CheckResult {
    pub name: String,
    pub ok: bool,
    pub detail: String,
}

impl CheckResult {
    /// A check that passed.
    pub fn ok(name: &str, detail: String) -> (out: CheckResult)
        ensures
            out.name@ == name@,
            out.ok,
            out.detail == detail,
    {
        CheckResult { name: owned(name), ok: true, detail }
    }

    /// A check that failed.
    pub fn no(name: &str, detail: String) -> (out: CheckResult)
        ensures
            out.name@ == name@,
            !out.ok,
            out.detail == detail,
    {
        CheckResult { name: owned(name), ok: false, detail }
    }
}

} // verus!
