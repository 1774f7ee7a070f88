use sandman::bench::cases::{at_most_creations, plan_greet_checks};
use sandman::roles::ToolName;
use sandman::bench::color::{bold, cyan, dim, green, paint, red, yellow};
use sandman::bench::grader::{default_judge, grader_request, unreachable_outcome, GraderOutcome, Verdict, GRADER_SYSTEM};
use sandman::bench::report::{checks_passed, failed_call_line, ratio, run_name, run_passed, summarize, wall_ms, RunReport};
use sandman::bench::{CheckResult, Trip};
use sandman::domain::ids::{CallId, SessionId};
use sandman::domain::message::Message;
use sandman::domain::time::{Cost, Spend};

#[test]
fn colour_wraps_text_only_when_on() {
    assert_eq!(bold(true, "x"), "\x1b[1mx\x1b[0m");
    assert_eq!(dim(true, "x"), "\x1b[2mx\x1b[0m");
    assert_eq!(red(true, "x"), "\x1b[31mx\x1b[0m");
    assert_eq!(green(true, "x"), "\x1b[32mx\x1b[0m");
    assert_eq!(yellow(true, "x"), "\x1b[33mx\x1b[0m");
    assert_eq!(cyan(true, "x"), "\x1b[36mx\x1b[0m");
    assert_eq!(paint(false, "\x1b[1m", "x"), "x");
}

#[test]
fn the_verdict_is_read_in_any_case() {
    assert_eq!(default_judge("fine.\n<VERDICT>Pass</VERDICT>"), (Verdict::Pass, "fine.\n<VERDICT>Pass</VERDICT>".to_string()));
    assert_eq!(default_judge("<verdict>fail</verdict>"), (Verdict::Fail, "<verdict>fail</verdict>".to_string()));
    assert_eq!(default_judge("no idea"), (Verdict::Fail, "no <verdict> tag in the reply: no idea".to_string()));
    assert_eq!(grader_request("what"), vec![
        Message::System { content: GRADER_SYSTEM.to_string() },
        Message::User { content: "what".to_string() },
    ]);
    let o = unreachable_outcome("tone", "timeout");
    assert_eq!(o.verdict, Verdict::Fail);
    assert_eq!(o.detail, "the grader could not be reached: timeout");
    assert_eq!(o.cost, Cost(0));
}

#[test]
fn a_run_passes_when_nothing_tripped_and_all_agreed() {
    let ok = CheckResult::ok("one", "fine".to_string());
    let no = CheckResult::no("two", "bad".to_string());
    assert!(checks_passed(false, &vec![ok.clone()]));
    assert!(!checks_passed(true, &vec![ok.clone()]));
    assert!(!checks_passed(false, &vec![ok, no]));
    let pass = GraderOutcome { name: "g".to_string(), verdict: Verdict::Pass, detail: String::new(), raw: String::new(), cost: Cost(1) };
    let fail = GraderOutcome { verdict: Verdict::Fail, ..pass.clone() };
    assert!(run_passed(true, &vec![pass.clone()]));
    assert!(!run_passed(true, &vec![pass.clone(), fail]));
    assert!(!run_passed(false, &vec![pass]));
    assert_eq!(wall_ms(100, 350), 250);
    assert_eq!(wall_ms(350, 100), 0);
}

#[test]
fn trips_and_names_read_as_text() {
    assert_eq!(Trip::Tripwire { name: "loop".to_string(), detail: "ran twice".to_string() }.message(), "tripwire `loop`: ran twice");
    assert_eq!(Trip::Timeout { what: "a reply".to_string() }.message(), "timed out waiting for a reply");
    assert_eq!(Trip::CaseTimeout { seconds: 90 }.message(), "the whole case ran past its 90s bound");
    assert_eq!(failed_call_line(CallId(3), SessionId(1), "HTTP 500"), "call-03 (s-01): HTTP 500");
    assert_eq!(run_name("hello", 2), "hello-run2");
    assert_eq!(ratio(false, 2, 3), "2/3");
    assert_eq!(ratio(true, 3, 3), "\x1b[32m3/3\x1b[0m");
    assert_eq!(ratio(true, 0, 3), "\x1b[31m0/3\x1b[0m");
    assert_eq!(ratio(true, 1, 3), "\x1b[33m1/3\x1b[0m");
    assert_eq!(ratio(true, 0, 0), "\x1b[31m0/0\x1b[0m");
}

fn report(case: &str, pass: bool, wall: i64, cost: i64, grader: i64) -> (String, RunReport) {
    (
        case.to_string(),
        RunReport {
            case: case.to_string(),
            description: String::new(),
            model: String::new(),
            reasoning_effort: "none".to_string(),
            started_at: 0,
            finished_at: wall,
            wall_ms: wall,
            pass,
            tripped: None,
            checks: Vec::new(),
            graders: Vec::new(),
            failed_calls: Vec::new(),
            spend: Spend { calls: 1, tokens: 10, cost: Cost(cost) },
            grader_cost: Cost(grader),
        },
    )
}

#[test]
fn runs_are_summed_up_by_case_in_first_seen_order() {
    let reports = vec![
        report("hello", true, 100, 5, 1),
        report("greet", false, 40, 2, 0),
        report("hello", false, 201, 7, 0),
        report("hello", true, 0, 0, 3),
    ];
    let s = summarize(&reports);
    assert_eq!(s.len(), 2);
    assert_eq!(s[0].case, "hello");
    assert_eq!((s[0].runs, s[0].passed, s[0].mean_wall_ms, s[0].total_cost), (3, 2, 100, Cost(16)));
    assert_eq!(s[1].case, "greet");
    assert_eq!((s[1].runs, s[1].passed, s[1].mean_wall_ms, s[1].total_cost), (1, 0, 40, Cost(2)));
    assert!(summarize(&Vec::new()).is_empty());
}

#[test]
fn plan_greet_wants_one_creation_a_nearby_delay_and_a_result() {
    let checks = plan_greet_checks(1, Some(Some(180)), true);
    assert_eq!(checks.len(), 3);
    assert_eq!((checks[0].name.as_str(), checks[0].ok, checks[0].detail.as_str()), ("scheduled once", true, "create_task_full was called once"));
    assert_eq!((checks[1].name.as_str(), checks[1].ok, checks[1].detail.as_str()), ("delay is about 3 minutes", true, "run_at_seconds was 180"));
    assert_eq!((checks[2].name.as_str(), checks[2].ok, checks[2].detail.as_str()), ("finished", true, "the planner submitted a Result"));
    let late = plan_greet_checks(2, Some(Some(86_400)), false);
    assert_eq!(late[0].detail, "create_task_full was called 2 time(s)");
    assert!(!late[1].ok);
    assert_eq!(late[1].detail, "run_at_seconds was 86400, outside 60..=600");
    assert_eq!(late[2].detail, "the Task did not complete as a success");
    let unset = plan_greet_checks(1, Some(None), true);
    assert_eq!(unset[1].detail, "run_at_seconds was not set");
    let none = plan_greet_checks(0, None, false);
    assert_eq!(none.len(), 2);
    assert!(!none[0].ok && !none[1].ok);
}

#[test]
fn creations_past_the_limit_trip_the_wire() {
    let calls = vec![ToolName::WebSearch, ToolName::CreateTaskFull, ToolName::CreateTask];
    let fine = at_most_creations(&calls, 2);
    assert!(fine.ok);
    assert_eq!(fine.detail, "2 creation call(s) so far");
    let over = at_most_creations(&calls, 1);
    assert!(!over.ok);
    assert_eq!(over.detail, "2 creation call(s), more than the 1 allowed");
    assert_eq!(over.name, "at_most_creations");
}
