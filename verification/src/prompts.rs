//! The prompts: the only wording a Worker, the Comms Session and
//! metacognition are given. A Worker's system prompt is the shared mechanics
//! joined with its Role's text; the Comms Session has its own prompt alone;
//! metacognition gets its system prompt and a question. Nothing is
//! templated, interpolated or conditional.
use vstd::prelude::*;

use crate::roles::RoleName;
use crate::strings::{push_str, string_of};

verus! {

/// Every prompt text, as loaded.
#[derive(Debug, Clone, PartialEq, Eq)]
pub struct Prompts {
    /// Shared mechanics, first in every Worker's system prompt.
    pub mechanics: String,
    /// The whole system prompt of the standing Comms Session.
    pub comms_session: String,
    pub research: String,
    pub planning: String,
    pub memory: String,
    pub task_manager: String,
    /// Metacognition's system prompt, for review and interrupt alike.
    pub meta_system: String,
    /// The question a review asks.
    pub review: String,
    /// The question an interrupt asks.
    pub interrupt: String,
}

/// The text of a Role's own prompt.
pub open spec fn role_prompt(p: Prompts, role: RoleName) -> Seq<char> {
    match role {
        RoleName::Research => p.research@,
        RoleName::Planning => p.planning@,
        RoleName::Memory => p.memory@,
        RoleName::TaskManager => p.task_manager@,
    }
}

/// A Worker's system prompt: the mechanics, a blank line, the Role's text.
pub open spec fn worker_prompt(p: Prompts, role: RoleName) -> Seq<char> {
    p.mechanics@ + "\n\n"@ + role_prompt(p, role)
}

/// Builds the Worker system prompt for a Role.
pub fn system_prompt(prompts: &Prompts, role: RoleName) -> (out: String)
    ensures
        out@ == worker_prompt(*prompts, role),
{
    let text = match role {
        RoleName::Research => prompts.research.as_str(),
        RoleName::Planning => prompts.planning.as_str(),
        RoleName::Memory => prompts.memory.as_str(),
        RoleName::TaskManager => prompts.task_manager.as_str(),
    };
    let mut v: Vec<char> = Vec::new();
    push_str(&mut v, prompts.mechanics.as_str());
    push_str(&mut v, "\n\n");
    push_str(&mut v, text);
    string_of(&v)
}

} // verus!
