//! The tools a Session may hold, as decisions on plain values: what each one
//! checks in its arguments, what it asks of the queue, and the words it
//! answers with. A tool always answers in words; failure is a sentence.
//!
//! The registry's own decision is here too: an unknown tool is named as such
//! before its arguments are read, and arguments that are not JSON are
//! refused before any tool runs.
pub mod create_task;
pub mod queue;
pub mod recall;
pub mod web;

use vstd::prelude::*;

use crate::roles::{role_text, tool_text, RoleName, ToolName};
use crate::strings::{push_str, string_of};

verus! {

/// Why a tool could not do what it was asked, worded for the model.
#[derive(Debug, Clone, PartialEq, Eq)]
pub enum ToolError {
    /// The arguments were not JSON.
    BadJson,
    /// A required argument is missing.
    Missing { field: &'static str },
    /// An argument was refused; the sentence says why.
    Rejected(String),
    /// No tool has this name.
    NoSuchTool(String),
    /// No Task has this id.
    NoSuchTask(String),
    /// The Role named is not one.
    NoSuchRole { given: String },
}

/// Every Role's name, in declaration order, joined by commas.
pub open spec fn role_list() -> Seq<char> {
    role_text(RoleName::Research) + ", "@ + role_text(RoleName::Planning) + ", "@ + role_text(
        RoleName::Memory,
    ) + ", "@ + role_text(RoleName::TaskManager)
}

/// The sentence a tool error reads as.
pub open spec fn tool_error_text(e: ToolError) -> Seq<char> {
    match e {
        ToolError::BadJson => "Error: your arguments were not valid JSON. Try again."@,
        ToolError::Missing { field } => "Error: `"@ + field@ + "` is required."@,
        ToolError::Rejected(why) => "Error: "@ + why@,
        ToolError::NoSuchTool(name) => "Error: there is no tool called "@ + name@ + "."@,
        ToolError::NoSuchTask(id) => "Error: there is no Task "@ + id@ + "."@,
        ToolError::NoSuchRole { given } => "Error: `"@ + given@ + "` is not a Role. Not one of: "@
            + role_list(),
    }
}

impl ToolError {
    /// The sentence the model reads.
    pub fn message(&self) -> (out: String)
        ensures
            out@ == tool_error_text(*self),
    {
        let mut v: Vec<char> = Vec::new();
        match self {
            ToolError::BadJson => {
                push_str(&mut v, "Error: your arguments were not valid JSON. Try again.");
            },
            ToolError::Missing { field } => {
                push_str(&mut v, "Error: `");
                push_str(&mut v, field);
                push_str(&mut v, "` is required.");
            },
            ToolError::Rejected(why) => {
                push_str(&mut v, "Error: ");
                push_str(&mut v, why.as_str());
            },
            ToolError::NoSuchTool(name) => {
                push_str(&mut v, "Error: there is no tool called ");
                push_str(&mut v, name.as_str());
                push_str(&mut v, ".");
            },
            ToolError::NoSuchTask(id) => {
                push_str(&mut v, "Error: there is no Task ");
                push_str(&mut v, id.as_str());
                push_str(&mut v, ".");
            },
            ToolError::NoSuchRole { given } => {
                push_str(&mut v, "Error: `");
                push_str(&mut v, given.as_str());
                push_str(&mut v, "` is not a Role. Not one of: ");
                push_str(&mut v, RoleName::Research.as_str());
                push_str(&mut v, ", ");
                push_str(&mut v, RoleName::Planning.as_str());
                push_str(&mut v, ", ");
                push_str(&mut v, RoleName::Memory.as_str());
                push_str(&mut v, ", ");
                push_str(&mut v, RoleName::TaskManager.as_str());
            },
        }
        string_of(&v)
    }
}

/// The registry's dispatch decision for one call: the tool it names, or the
/// error the model reads instead.
pub fn resolve_call(name: &str, json_ok: bool) -> (out: Result<ToolName, ToolError>)
    ensures
        match out {
            Ok(t) => tool_text(t) == name@ && json_ok,
            Err(ToolError::NoSuchTool(n)) => n@ == name@ && forall|t: ToolName| tool_text(t) != name@,
            Err(ToolError::BadJson) => !json_ok && exists|t: ToolName| tool_text(t) == name@,
            Err(_) => false,
        },
{
    match ToolName::from_str(name) {
        None => Err(ToolError::NoSuchTool(crate::strings::owned(name))),
        Some(t) => if json_ok {
            Ok(t)
        } else {
            Err(ToolError::BadJson)
        },
    }
}

} // verus!
