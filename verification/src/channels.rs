//! What the terminal Channel makes of a line typed at it: `/quit` ends the
//! session, anything else is said to the swarm without its line ending.
use vstd::prelude::*;

use crate::strings::{chars_of, string_of, str_eq};

verus! {

/// A typed line, read.
#[derive(Debug, Clone, PartialEq, Eq)]
pub enum Typed {
    /// The human asked to stop.
    Quit,
    /// Something said to the swarm.
    Said(String),
}

/// A line without the `\r` and `\n` characters it ends with.
pub open spec fn without_line_end(s: Seq<char>) -> Seq<char>
    decreases s.len(),
{
    if s.len() > 0 && (s.last() == '\r' || s.last() == '\n') {
        without_line_end(s.drop_last())
    } else {
        s
    }
}

/// Reads one typed line.
pub fn read_line(line: &str) -> (out: Typed)
    ensures
        without_line_end(line@) == "/quit"@ ==> out == Typed::Quit,
        without_line_end(line@) != "/quit"@ ==> (out matches Typed::Said(t) && t@ == without_line_end(
            line@,
        )),
{
    let mut v = chars_of(line);
    while v.len() > 0 && (v[v.len() - 1] == '\r' || v[v.len() - 1] == '\n')
        invariant
            without_line_end(v@) == without_line_end(line@),
        decreases v.len(),
    {
        let ghost before = v@;
        v.pop();
        assert(v@ =~= before.drop_last());
    }
    let text = string_of(&v);
    if str_eq(text.as_str(), "/quit") {
        Typed::Quit
    } else {
        Typed::Said(text)
    }
}

} // verus!
