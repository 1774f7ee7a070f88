//! What the command line asks of a running Sandman, as requests on its
//! control socket. A one-shot Task without a title is titled by its brief.
use vstd::prelude::*;

use crate::control::Request;

verus! {

/// A one-shot Task as the command line gives it.
#[derive(Debug, Clone, PartialEq, Eq)]
pub struct TaskArgs {
    pub role: String,
    pub title: Option<String>,
    pub brief: String,
    pub in_seconds: Option<i64>,
    pub cron: Option<String>,
    pub priority: Option<String>,
}

/// The request a one-shot Task makes: its title, or its brief where it has
/// none, and everything else as given.
pub fn task_request(args: TaskArgs) -> (out: Request)
    ensures
        out matches Request::CreateTask { role, title, brief, in_seconds, cron, priority } && role
            == args.role && title == (match args.title {
            Some(t) => t,
            None => args.brief,
        }) && brief == args.brief && in_seconds == args.in_seconds && cron == args.cron && priority
            == args.priority,
{
    let title = match args.title {
        Some(t) => t,
        None => args.brief.clone(),
    };
    Request::CreateTask {
        role: args.role,
        title,
        brief: args.brief,
        in_seconds: args.in_seconds,
        cron: args.cron,
        priority: args.priority,
    }
}

/// The request `list` makes.
pub fn list_request(state: Option<String>, count: Option<usize>) -> (out: Request)
    ensures
        out == (Request::ListTasks { state, count }),
{
    Request::ListTasks { state, count }
}

} // verus!
