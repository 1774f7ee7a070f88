//! What one bench run comes to, and what many runs of the same cases add up
//! to. A run passes when nothing tripped, every check passed and every
//! grader said pass; runs are grouped by case in the order the cases first
//! appear.
use vstd::prelude::*;

use crate::bench::color::{green, painted, red, yellow, GREEN, RED, YELLOW};
use crate::bench::grader::{GraderOutcome, Verdict};
use crate::bench::CheckResult;
use crate::domain::ids::{id_text, CallId, SessionId};
use crate::domain::time::{Cost, Spend};
use crate::strings::{decimal, decimal_chars, push_chars, push_str, string_of, vec_eq};

verus! {

/// One run of one case, as it is reported and kept.
#[derive(Debug, Clone, PartialEq, Eq)]
pub struct RunReport {
    pub case: String,
    pub description: String,
    pub model: String,
    pub reasoning_effort: String,
    pub started_at: i64,
    pub finished_at: i64,
    pub wall_ms: i64,
    pub pass: bool,
    pub tripped: Option<String>,
    pub checks: Vec<CheckResult>,
    pub graders: Vec<GraderOutcome>,
    pub failed_calls: Vec<String>,
    pub spend: Spend,
    pub grader_cost: Cost,
}

/// What the runs of one case add up to.
#[derive(Debug, Clone, PartialEq, Eq)]
pub struct CaseSummary {
    pub case: String,
    pub runs: usize,
    pub passed: usize,
    pub mean_wall_ms: i64,
    pub total_cost: Cost,
}

/// Whether every check passed.
pub open spec fn all_ok(checks: Seq<CheckResult>) -> bool {
    forall|i: int| 0 <= i < checks.len() ==> (#[trigger] checks[i]).ok
}

/// Whether every grader said pass.
pub open spec fn all_pass(graders: Seq<GraderOutcome>) -> bool {
    forall|i: int| 0 <= i < graders.len() ==> (#[trigger] graders[i]).verdict == Verdict::Pass
}

/// Whether the checks of a run that did not trip all passed: only then are
/// its graders asked.
pub fn checks_passed(tripped: bool, checks: &Vec<CheckResult>) -> (b: bool)
    ensures
        b == (!tripped && all_ok(checks@)),
{
    if tripped {
        return false;
    }
    let mut i: usize = 0;
    while i < checks.len()
        invariant
            i <= checks.len(),
            forall|k: int| 0 <= k < i ==> (#[trigger] checks@[k]).ok,
        decreases checks.len() - i,
    {
        if !checks[i].ok {
            assert(!checks@[i as int].ok);
            return false;
        }
        i = i + 1;
    }
    true
}

/// Whether a run passed: its checks passed and every grader said pass.
pub fn run_passed(checks_ok: bool, graders: &Vec<GraderOutcome>) -> (b: bool)
    ensures
        b == (checks_ok && all_pass(graders@)),
{
    if !checks_ok {
        return false;
    }
    let mut i: usize = 0;
    while i < graders.len()
        invariant
            i <= graders.len(),
            forall|k: int| 0 <= k < i ==> (#[trigger] graders@[k]).verdict == Verdict::Pass,
        decreases graders.len() - i,
    {
        if graders[i].verdict != Verdict::Pass {
            assert(graders@[i as int].verdict != Verdict::Pass);
            return false;
        }
        i = i + 1;
    }
    true
}

/// How long a run took, never below zero.
pub fn wall_ms(started_at: i64, finished_at: i64) -> (ms: i64)
    requires
        i64::MIN <= finished_at - started_at <= i64::MAX,
    ensures
        ms == (if finished_at - started_at > 0 {
            finished_at - started_at
        } else {
            0
        }),
{
    let d = finished_at - started_at;
    if d > 0 {
        d
    } else {
        0
    }
}

/// How a failed call is listed: `call-nn (s-nn): error`.
pub fn failed_call_line(call: CallId, session: SessionId, error: &str) -> (out: String)
    ensures
        out@ == id_text("call"@, call.0) + " ("@ + id_text("s"@, session.0) + "): "@ + error@,
{
    let mut v: Vec<char> = Vec::new();
    push_str(&mut v, call.to_string().as_str());
    push_str(&mut v, " (");
    push_str(&mut v, session.to_string().as_str());
    push_str(&mut v, "): ");
    push_str(&mut v, error);
    string_of(&v)
}

/// The directory a run's artifacts go in, under the bench's stamp:
/// `case-runK`.
pub fn run_name(case: &str, k: usize) -> (out: String)
    ensures
        out@ == case@ + "-run"@ + decimal(k as nat),
{
    let mut v: Vec<char> = Vec::new();
    push_str(&mut v, case);
    push_str(&mut v, "-run");
    let d = decimal_chars(k as u64);
    push_chars(&mut v, &d);
    string_of(&v)
}

/// What `Path::join` makes of a path and a component: a function of the two
/// alone (std appends the component after a separator, or takes it whole
/// when it is absolute).
pub uninterp spec fn path_joined(base: std::path::PathBuf, part: Seq<char>) -> std::path::PathBuf;

/// Joins a path and a component with `Path::join`; the result is named
/// `path_joined`.
#[verifier::external_body]
fn join_path(base: &std::path::PathBuf, part: &str) -> (out: std::path::PathBuf)
    ensures
        out == path_joined(*base, part@),
{
    base.join(part)
}

/// The directory a run's artifacts go in: `root/stamp/case-runK`.
pub fn run_dir(root: &std::path::PathBuf, stamp: &str, case: &str, k: usize) -> (out: std::path::PathBuf)
    ensures
        out == path_joined(path_joined(*root, stamp@), case@ + "-run"@ + decimal(k as nat)),
{
    let under = join_path(root, stamp);
    let name = run_name(case, k);
    join_path(&under, name.as_str())
}

/// `passed/runs`, green when every run passed, red when none did, yellow
/// otherwise.
pub open spec fn ratio_text(on: bool, passed: nat, runs: nat) -> Seq<char> {
    let text = decimal(passed) + "/"@ + decimal(runs);
    if runs > 0 && passed == runs {
        painted(on, GREEN@, text)
    } else if passed == 0 {
        painted(on, RED@, text)
    } else {
        painted(on, YELLOW@, text)
    }
}

/// Words how many runs passed.
pub fn ratio(on: bool, passed: usize, runs: usize) -> (out: String)
    ensures
        out@ == ratio_text(on, passed as nat, runs as nat),
{
    let mut v: Vec<char> = Vec::new();
    let p = decimal_chars(passed as u64);
    push_chars(&mut v, &p);
    push_str(&mut v, "/");
    let r = decimal_chars(runs as u64);
    push_chars(&mut v, &r);
    let text = string_of(&v);
    if runs > 0 && passed == runs {
        green(on, text.as_str())
    } else if passed == 0 {
        red(on, text.as_str())
    } else {
        yellow(on, text.as_str())
    }
}

/// The case names of the reports.
pub open spec fn names_of(reports: Seq<(String, RunReport)>) -> Seq<Seq<char>> {
    Seq::new(reports.len(), |i: int| reports[i].0@)
}

/// The distinct names in `names`, in the order each first appears.
pub open spec fn first_seen(names: Seq<Seq<char>>) -> Seq<Seq<char>>
    decreases names.len(),
{
    if names.len() == 0 {
        Seq::empty()
    } else if first_seen(names.drop_last()).contains(names.last()) {
        first_seen(names.drop_last())
    } else {
        first_seen(names.drop_last()).push(names.last())
    }
}

/// What the runs named `name` add up to: how many, how many passed, their
/// wall time, and their cost with the graders'.
pub open spec fn tally(reports: Seq<(String, RunReport)>, name: Seq<char>) -> (nat, nat, int, int)
    decreases reports.len(),
{
    if reports.len() == 0 {
        (0, 0, 0, 0)
    } else {
        let before = tally(reports.drop_last(), name);
        let r = reports.last();
        if r.0@ == name {
            (
                before.0 + 1,
                before.1 + if r.1.pass {
                    1nat
                } else {
                    0nat
                },
                before.2 + r.1.wall_ms,
                before.3 + r.1.spend.cost.0 + r.1.grader_cost.0,
            )
        } else {
            before
        }
    }
}

/// Division of integers that rounds toward zero, as `i64` division does.
pub open spec fn div_toward_zero(a: int, b: int) -> int {
    if a >= 0 {
        a / b
    } else {
        -((-a) / b)
    }
}

/// Whether `s` sums up the runs of its case.
pub open spec fn summarizes(reports: Seq<(String, RunReport)>, s: CaseSummary) -> bool {
    let t = tally(reports, s.case@);
    &&& s.runs == t.0
    &&& s.passed == t.1
    &&& s.mean_wall_ms == div_toward_zero(t.2, t.0 as int)
    &&& s.total_cost.0 == t.3
}

proof fn lemma_tally_bounds(reports: Seq<(String, RunReport)>, name: Seq<char>)
    ensures
        tally(reports, name).1 <= tally(reports, name).0 <= reports.len(),
        tally(reports, name).0 * i64::MIN <= tally(reports, name).2 <= tally(reports, name).0
            * i64::MAX,
    decreases reports.len(),
{
    if reports.len() > 0 {
        lemma_tally_bounds(reports.drop_last(), name);
    }
}

proof fn lemma_tally_positive(reports: Seq<(String, RunReport)>, k: int)
    requires
        0 <= k < reports.len(),
    ensures
        tally(reports, reports[k].0@).0 > 0,
    decreases reports.len(),
{
    if k < reports.len() - 1 {
        lemma_tally_positive(reports.drop_last(), k);
        assert(reports.drop_last()[k] == reports[k]);
    }
}

proof fn lemma_first_seen_named(names: Seq<Seq<char>>, j: int)
    requires
        0 <= j < first_seen(names).len(),
    ensures
        exists|k: int| 0 <= k < names.len() && names[k] == first_seen(names)[j],
    decreases names.len(),
{
    if names.len() > 0 {
        let p = first_seen(names.drop_last());
        if j < p.len() {
            lemma_first_seen_named(names.drop_last(), j);
            let k = choose|k: int| 0 <= k < names.drop_last().len() && names.drop_last()[k] == p[j];
            assert(names[k] == names.drop_last()[k]);
        } else {
            assert(names[names.len() - 1] == first_seen(names)[j]);
        }
    }
}

proof fn lemma_mean_fits(wall: int, n: int)
    requires
        n > 0,
        n * i64::MIN <= wall <= n * i64::MAX,
    ensures
        i64::MIN <= div_toward_zero(wall, n) <= i64::MAX,
        wall >= 0 ==> div_toward_zero(wall, n) == wall / n,
        wall < 0 ==> div_toward_zero(wall, n) == -((-wall) / n),
{
    if wall >= 0 {
        assert(wall / n <= i64::MAX) by (nonlinear_arith)
            requires
                n > 0,
                0 <= wall <= n * i64::MAX,
        ;
        assert(wall / n >= 0) by (nonlinear_arith)
            requires
                n > 0,
                0 <= wall,
        ;
    } else {
        assert((-wall) / n <= 0x8000_0000_0000_0000) by (nonlinear_arith)
            requires
                n > 0,
                0 < -wall <= n * 0x8000_0000_0000_0000,
        ;
        assert((-wall) / n >= 0) by (nonlinear_arith)
            requires
                n > 0,
                0 < -wall,
        ;
    }
}

/// The distinct case names of the reports, in the order each first appears.
fn case_order(reports: &Vec<(String, RunReport)>) -> (out: Vec<String>)
    ensures
        out@.len() == first_seen(names_of(reports@)).len(),
        forall|j: int| 0 <= j < out@.len() ==> #[trigger] out@[j]@ == first_seen(names_of(reports@))[j],
{
    let mut order: Vec<String> = Vec::new();
    let mut i: usize = 0;
    while i < reports.len()
        invariant
            i <= reports.len(),
            order@.len() == first_seen(names_of(reports@).take(i as int)).len(),
            forall|j: int|
                0 <= j < order@.len() ==> #[trigger] order@[j]@ == first_seen(
                    names_of(reports@).take(i as int),
                )[j],
        decreases reports.len() - i,
    {
        let ghost names = names_of(reports@);
        let ghost seen = first_seen(names.take(i as int));
        assert(names.take(i + 1).drop_last() =~= names.take(i as int));
        assert(names.take(i + 1).last() == reports@[i as int].0@);
        let name_chars = crate::strings::chars_of(reports[i].0.as_str());
        let mut found = false;
        let mut j: usize = 0;
        while j < order.len()
            invariant
                j <= order.len(),
                order@.len() == seen.len(),
                forall|m: int| 0 <= m < order@.len() ==> #[trigger] order@[m]@ == seen[m],
                name_chars@ == reports@[i as int].0@,
                found == exists|m: int| 0 <= m < j && seen[m] == name_chars@,
            decreases order.len() - j,
        {
            let other = crate::strings::chars_of(order[j].as_str());
            if vec_eq(&other, &name_chars) {
                found = true;
            }
            j = j + 1;
        }
        if !found {
            assert(!seen.contains(name_chars@));
            order.push(reports[i].0.clone());
            assert(seen.push(name_chars@) =~= first_seen(names.take(i + 1)));
        } else {
            assert(seen.contains(name_chars@));
        }
        i = i + 1;
    }
    assert(names_of(reports@).take(reports.len() as int) =~= names_of(reports@));
    order
}

/// The cost of the runs named `name`, and their graders' cost, apart.
pub open spec fn costs(reports: Seq<(String, RunReport)>, name: Seq<char>) -> (int, int)
    decreases reports.len(),
{
    if reports.len() == 0 {
        (0, 0)
    } else {
        let before = costs(reports.drop_last(), name);
        let r = reports.last();
        if r.0@ == name {
            (before.0 + r.1.spend.cost.0, before.1 + r.1.grader_cost.0)
        } else {
            before
        }
    }
}

proof fn lemma_costs(reports: Seq<(String, RunReport)>, name: Seq<char>)
    ensures
        costs(reports, name).0 + costs(reports, name).1 == tally(reports, name).3,
        tally(reports, name).0 * i64::MIN <= costs(reports, name).0 <= tally(reports, name).0
            * i64::MAX,
        tally(reports, name).0 * i64::MIN <= costs(reports, name).1 <= tally(reports, name).0
            * i64::MAX,
    decreases reports.len(),
{
    if reports.len() > 0 {
        lemma_costs(reports.drop_last(), name);
    }
}

proof fn lemma_scaled_fits(i: int, x: int)
    requires
        0 <= i < 0x1_0000_0000_0000_0000,
        i * i64::MIN <= x <= i * i64::MAX,
    ensures
        -0x7fff_ffff_ffff_ffff_ffff_ffff_ffff_ffff <= x + 0x8000_0000_0000_0000,
        x + 0x7fff_ffff_ffff_ffff <= 0x7fff_ffff_ffff_ffff_ffff_ffff_ffff_ffff,
        x - 0x8000_0000_0000_0000 >= -0x8000_0000_0000_0000_0000_0000_0000_0000,
{
    assert(i * i64::MIN >= -0x8000_0000_0000_0000 * 0xffff_ffff_ffff_ffff) by (nonlinear_arith)
        requires
            0 <= i <= 0xffff_ffff_ffff_ffff,
    ;
    assert(i * i64::MAX <= 0x7fff_ffff_ffff_ffff * 0xffff_ffff_ffff_ffff) by (nonlinear_arith)
        requires
            0 <= i <= 0xffff_ffff_ffff_ffff,
    ;
}

/// What the runs named `name` add up to.
fn tally_case(reports: &Vec<(String, RunReport)>, name: &String) -> (out: (usize, usize, i128, i128, i128))
    ensures
        out.0 == tally(reports@, name@).0,
        out.1 == tally(reports@, name@).1,
        out.2 == tally(reports@, name@).2,
        out.3 == costs(reports@, name@).0,
        out.4 == costs(reports@, name@).1,
{
    let want = crate::strings::chars_of(name.as_str());
    let mut runs: usize = 0;
    let mut passed: usize = 0;
    let mut wall: i128 = 0;
    let mut spent: i128 = 0;
    let mut graded: i128 = 0;
    let mut i: usize = 0;
    while i < reports.len()
        invariant
            i <= reports.len(),
            want@ == name@,
            runs == tally(reports@.take(i as int), name@).0,
            passed == tally(reports@.take(i as int), name@).1,
            wall == tally(reports@.take(i as int), name@).2,
            spent == costs(reports@.take(i as int), name@).0,
            graded == costs(reports@.take(i as int), name@).1,
        decreases reports.len() - i,
    {
        assert(reports@.take(i + 1).drop_last() =~= reports@.take(i as int));
        proof {
            lemma_tally_bounds(reports@.take(i as int), name@);
            lemma_costs(reports@.take(i as int), name@);
            lemma_scaled_fits(runs as int, wall as int);
            lemma_scaled_fits(runs as int, spent as int);
            lemma_scaled_fits(runs as int, graded as int);
        }
        let have = crate::strings::chars_of(reports[i].0.as_str());
        if vec_eq(&have, &want) {
            let r = &reports[i].1;
            runs = runs + 1;
            if r.pass {
                passed = passed + 1;
            }
            wall = wall + r.wall_ms as i128;
            spent = spent + r.spend.cost.0 as i128;
            graded = graded + r.grader_cost.0 as i128;
        }
        i = i + 1;
    }
    assert(reports@.take(reports.len() as int) =~= reports@);
    (runs, passed, wall, spent, graded)
}

/// Groups runs by case, in the order the cases first appear, and sums up
/// each: how many runs, how many passed, the mean wall time (rounded toward
/// zero) and the total cost with the graders'.
pub fn summarize(reports: &Vec<(String, RunReport)>) -> (out: Vec<CaseSummary>)
    requires
        forall|i: int|
            0 <= i < reports.len() ==> i64::MIN <= #[trigger] tally(reports@, reports@[i].0@).3
                <= i64::MAX,
    ensures
        out@.len() == first_seen(names_of(reports@)).len(),
        forall|j: int|
            0 <= j < out@.len() ==> (#[trigger] out@[j]).case@ == first_seen(names_of(reports@))[j]
                && summarizes(reports@, out@[j]),
{
    let order = case_order(reports);
    let mut out: Vec<CaseSummary> = Vec::new();
    let mut j: usize = 0;
    while j < order.len()
        invariant
            j <= order.len(),
            order@.len() == first_seen(names_of(reports@)).len(),
            forall|m: int| 0 <= m < order@.len() ==> #[trigger] order@[m]@ == first_seen(names_of(reports@))[m],
            forall|i: int|
                0 <= i < reports.len() ==> i64::MIN <= #[trigger] tally(reports@, reports@[i].0@).3
                    <= i64::MAX,
            out@.len() == j,
            forall|m: int|
                0 <= m < j ==> (#[trigger] out@[m]).case@ == first_seen(names_of(reports@))[m]
                    && summarizes(reports@, out@[m]),
        decreases order.len() - j,
    {
        let name = &order[j];
        let (runs, passed, wall, spent, graded) = tally_case(reports, name);
        proof {
            lemma_first_seen_named(names_of(reports@), j as int);
            let k = choose|k: int|
                0 <= k < names_of(reports@).len() && names_of(reports@)[k] == first_seen(
                    names_of(reports@),
                )[j as int];
            lemma_tally_positive(reports@, k);
            lemma_costs(reports@, name@);
            assert(i64::MIN <= spent + graded <= i64::MAX);
            lemma_tally_bounds(reports@, name@);
        }
        let cost = spent + graded;
        let n: i128 = runs as i128;
        let mean: i128 = if wall >= 0 {
            wall / n
        } else {
            -((-wall) / n)
        };
        proof {
            lemma_mean_fits(wall as int, n as int);
        }
        out.push(
            CaseSummary {
                case: name.clone(),
                runs,
                passed,
                mean_wall_ms: mean as i64,
                total_cost: Cost(cost as i64),
            },
        );
        j = j + 1;
    }
    out
}

/// The summary names each case once, and every case it names ran at least
/// once and passed no more often than it ran.
pub proof fn law_each_case_summed_once(reports: Seq<(String, RunReport)>)
    ensures
        forall|j: int, k: int|
            0 <= j < k < first_seen(names_of(reports)).len() ==> first_seen(names_of(reports))[j]
                != first_seen(names_of(reports))[k],
        forall|j: int|
            0 <= j < first_seen(names_of(reports)).len() ==> {
                let t = #[trigger] tally(reports, first_seen(names_of(reports))[j]);
                t.0 >= 1 && t.1 <= t.0
            },
{
    lemma_first_seen_distinct(names_of(reports));
    assert forall|j: int| 0 <= j < first_seen(names_of(reports)).len() implies {
        let t = #[trigger] tally(reports, first_seen(names_of(reports))[j]);
        t.0 >= 1 && t.1 <= t.0
    } by {
        lemma_first_seen_named(names_of(reports), j);
        let k = choose|k: int|
            0 <= k < names_of(reports).len() && names_of(reports)[k] == first_seen(names_of(reports))[j];
        lemma_tally_positive(reports, k);
        lemma_tally_bounds(reports, first_seen(names_of(reports))[j]);
    }
}

proof fn lemma_first_seen_distinct(names: Seq<Seq<char>>)
    ensures
        forall|j: int, k: int|
            0 <= j < k < first_seen(names).len() ==> first_seen(names)[j] != first_seen(names)[k],
    decreases names.len(),
{
    if names.len() > 0 {
        lemma_first_seen_distinct(names.drop_last());
        let p = first_seen(names.drop_last());
        if !p.contains(names.last()) {
            assert forall|j: int, k: int|
                0 <= j < k < first_seen(names).len() implies first_seen(names)[j] != first_seen(names)[k] by {
                if k == p.len() {
                    assert(first_seen(names)[j] == p[j]);
                    assert(first_seen(names)[k] == names.last());
                } else {
                    assert(first_seen(names)[j] == p[j]);
                    assert(first_seen(names)[k] == p[k]);
                }
            }
        }
    }
}

} // verus!
