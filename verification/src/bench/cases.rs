//! How the bench cases judge what a Session did. A case watches the tool
//! calls a Session makes; the tripwire that no case may cross is creating
//! more Tasks than it allows, and the `plan-greet` case asks three things of
//! a planning Worker told to greet the human again in about three minutes:
//! that it schedules the greeting exactly once, with a delay in the right
//! neighbourhood, and then finishes with a result.
use vstd::prelude::*;

use crate::bench::CheckResult;
use crate::roles::ToolName;
use crate::strings::{decimal, decimal_chars, owned, push_chars, push_str, signed_decimal, signed_decimal_chars, string_of};

verus! {

/// The shortest delay `plan-greet` accepts for "about 3 minutes", in seconds.
pub const EXPECTED_DELAY_MIN: i64 = 60;

/// The longest delay `plan-greet` accepts, in seconds: loose enough for a
/// model that means somewhere close to three minutes, tight enough that
/// "tomorrow" fails it.
pub const EXPECTED_DELAY_MAX: i64 = 600;

/// Whether a tool call creates a Task.
pub open spec fn creates(name: ToolName) -> bool {
    name == ToolName::CreateTask || name == ToolName::CreateTaskFull || name == ToolName::CreateResearchTask
}

/// How many of these calls create a Task.
pub open spec fn creations(calls: Seq<ToolName>) -> nat
    decreases calls.len(),
{
    if calls.len() == 0 {
        0
    } else {
        creations(calls.drop_last()) + if creates(calls.last()) {
            1nat
        } else {
            0nat
        }
    }
}

/// The tripwire on creations: at most `n` Task-creating calls so far.
pub fn at_most_creations(calls: &Vec<ToolName>, n: usize) -> (out: CheckResult)
    ensures
        out.name@ == "at_most_creations"@,
        out.ok == (creations(calls@) <= n),
        out.ok ==> out.detail@ == decimal(creations(calls@)) + " creation call(s) so far"@,
        !out.ok ==> out.detail@ == decimal(creations(calls@)) + " creation call(s), more than the "@
            + decimal(n as nat) + " allowed"@,
{
    let mut count: usize = 0;
    let mut i: usize = 0;
    while i < calls.len()
        invariant
            i <= calls.len(),
            count == creations(calls@.take(i as int)),
            count <= i,
        decreases calls.len() - i,
    {
        assert(calls@.take(i + 1).drop_last() =~= calls@.take(i as int));
        let name = calls[i];
        if name == ToolName::CreateTask || name == ToolName::CreateTaskFull || name == ToolName::CreateResearchTask {
            count = count + 1;
        }
        i = i + 1;
    }
    assert(calls@.take(calls.len() as int) =~= calls@);
    let mut v: Vec<char> = Vec::new();
    let c = decimal_chars(count as u64);
    push_chars(&mut v, &c);
    if count <= n {
        push_str(&mut v, " creation call(s) so far");
        CheckResult::ok("at_most_creations", string_of(&v))
    } else {
        push_str(&mut v, " creation call(s), more than the ");
        let m = decimal_chars(n as u64);
        push_chars(&mut v, &m);
        push_str(&mut v, " allowed");
        CheckResult::no("at_most_creations", string_of(&v))
    }
}

/// Whether a check is the one with this name, outcome and detail.
pub open spec fn is_check(c: CheckResult, name: Seq<char>, ok: bool, detail: Seq<char>) -> bool {
    c.name@ == name && c.ok == ok && c.detail@ == detail
}

/// The check on how many times `create_task_full` was called.
pub open spec fn once_check(c: CheckResult, creations: nat) -> bool {
    if creations == 1 {
        is_check(c, "scheduled once"@, true, "create_task_full was called once"@)
    } else {
        is_check(
            c,
            "scheduled once"@,
            false,
            "create_task_full was called "@ + decimal(creations) + " time(s)"@,
        )
    }
}

/// The check on the delay the first creation asked for.
pub open spec fn delay_check(c: CheckResult, delay: Option<i64>) -> bool {
    match delay {
        Some(s) => if EXPECTED_DELAY_MIN <= s <= EXPECTED_DELAY_MAX {
            is_check(c, "delay is about 3 minutes"@, true, "run_at_seconds was "@ + signed_decimal(s as int))
        } else {
            is_check(
                c,
                "delay is about 3 minutes"@,
                false,
                "run_at_seconds was "@ + signed_decimal(s as int) + ", outside 60..=600"@,
            )
        },
        None => is_check(c, "delay is about 3 minutes"@, false, "run_at_seconds was not set"@),
    }
}

/// The check on how the Task ended.
pub open spec fn finished_check(c: CheckResult, succeeded: bool) -> bool {
    if succeeded {
        is_check(c, "finished"@, true, "the planner submitted a Result"@)
    } else {
        is_check(c, "finished"@, false, "the Task did not complete as a success"@)
    }
}

/// The goal checks of `plan-greet`: `creations` is how many times
/// `create_task_full` was called; `first_delay` is what the first of those
/// calls asked for (`None` when there was none, `Some(None)` when it set no
/// delay); `succeeded` whether the planning Task completed as a success.
/// The delay is only judged where there was a call to judge.
pub fn plan_greet_checks(creations: usize, first_delay: Option<Option<i64>>, succeeded: bool) -> (out: Vec<
    CheckResult,
>)
    ensures
        out@.len() == (if first_delay is Some {
            3int
        } else {
            2int
        }),
        once_check(out@[0], creations as nat),
        first_delay matches Some(d) ==> delay_check(out@[1], d),
        finished_check(out@[out@.len() - 1], succeeded),
{
    let mut out: Vec<CheckResult> = Vec::new();
    if creations == 1 {
        out.push(CheckResult::ok("scheduled once", owned("create_task_full was called once")));
    } else {
        let mut v: Vec<char> = Vec::new();
        push_str(&mut v, "create_task_full was called ");
        let c = decimal_chars(creations as u64);
        push_chars(&mut v, &c);
        push_str(&mut v, " time(s)");
        out.push(CheckResult::no("scheduled once", string_of(&v)));
    }
    match first_delay {
        Some(Some(seconds)) => {
            let mut v: Vec<char> = Vec::new();
            push_str(&mut v, "run_at_seconds was ");
            let d = signed_decimal_chars(seconds);
            push_chars(&mut v, &d);
            if EXPECTED_DELAY_MIN <= seconds && seconds <= EXPECTED_DELAY_MAX {
                out.push(CheckResult::ok("delay is about 3 minutes", string_of(&v)));
            } else {
                push_str(&mut v, ", outside 60..=600");
                out.push(CheckResult::no("delay is about 3 minutes", string_of(&v)));
            }
        },
        Some(None) => {
            out.push(CheckResult::no("delay is about 3 minutes", owned("run_at_seconds was not set")));
        },
        None => {},
    }
    if succeeded {
        out.push(CheckResult::ok("finished", owned("the planner submitted a Result")));
    } else {
        out.push(CheckResult::no("finished", owned("the Task did not complete as a success")));
    }
    out
}

} // verus!
