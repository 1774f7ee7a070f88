//! Where a running Sandman keeps its files, as its configuration names them,
//! and how much its log shows.
use vstd::prelude::*;

use crate::log::Verbosity;

verus! {

/// The files a Sandman uses.
#[derive(Debug)]
pub struct Paths {
    pub db: std::path::PathBuf,
    pub log: std::path::PathBuf,
    pub socket: std::path::PathBuf,
    /// Take the database even if a lockfile says another process has it.
    pub break_lock: bool,
}

/// How much the log shows, from the `--verbose` flag.
pub fn verbosity_for(verbose: bool) -> (v: Verbosity)
    ensures
        v == (if verbose {
            Verbosity::Verbose
        } else {
            Verbosity::Terse
        }),
{
    if verbose {
        Verbosity::Verbose
    } else {
        Verbosity::Terse
    }
}

} // verus!
