use sandman::domain::call::{CallStatus, Usage};
use sandman::domain::channel::{ChannelKind, Who};
use sandman::domain::ids::{ChannelId, RunId, SessionId, TaskId};
use sandman::domain::lesson::LessonSubject;
use sandman::domain::message::{AssistantBody, Message, NonEmpty, ToolCall};
use sandman::domain::task::{Creator, CronExpr, Schedule, ScheduleError, Task, TaskPriority, TaskResult, TaskState, TaskStateName};
use sandman::domain::text::{Brief, Day, TextError, Title};
use sandman::domain::time::{Cost, Duration, ManualClock, Timestamp, Clock};
use sandman::roles::{tools_for, RoleName, ToolName};
use sandman::scheduler::{SlotQueue, Tier};

#[test]
fn ids_are_written_padded_and_read_back() {
    assert_eq!(TaskId(3).to_string(), "t-03");
    assert_eq!(TaskId(123).to_string(), "t-123");
    assert_eq!(RunId(7).to_string(), "run-07");
    assert_eq!(ChannelId(1).to_string(), "ch-01");
    assert_eq!(TaskId::from_str("t-03").unwrap(), TaskId(3));
    assert_eq!(SessionId::from_str(&SessionId(41).to_string()).unwrap(), SessionId(41));
    let e = TaskId::from_str("s-03").unwrap_err();
    assert_eq!(e.text, "s-03");
    assert_eq!(e.expected, "t");
}

#[test]
fn costs_print_dollars_and_micros() {
    assert_eq!(Cost(0).to_string(), "$0.000000");
    assert_eq!(Cost(1_234_567_891).to_string(), "$1.234567");
    assert_eq!(Cost(5_000).to_string(), "$0.000005");
    assert_eq!(Cost(3).plus(Cost(4)), Cost(7));
}

#[test]
fn time_moves_by_milliseconds() {
    assert_eq!(Timestamp(1_000).plus(Duration::from_secs(2)), Timestamp(3_000));
    assert_eq!(Timestamp(1_000).until(Timestamp(1_250)), Duration(250));
    assert_eq!(Timestamp(1_000).until(Timestamp(900)), Duration(0));
    assert_eq!(Duration::from_millis(5), Duration(5));
    let mut clock = ManualClock::starting_at(Timestamp(10));
    clock.advance(Duration(5));
    assert_eq!(clock.now(), Timestamp(15));
}

#[test]
fn titles_collapse_and_briefs_keep_their_text() {
    assert_eq!(Title::try_from("  a \t b\n c ".to_string()).unwrap().as_str(), "a b c");
    assert_eq!(Title::try_from(" \n".to_string()).unwrap_err(), TextError::Empty { what: "title" });
    assert_eq!(Brief::try_from("  keep  this ".to_string()).unwrap().as_str(), "  keep  this ");
    assert_eq!(TextError::Empty { what: "brief" }.message(), "a brief cannot be empty");
    assert_eq!(Day::try_from("2024-02-29".to_string()).unwrap().as_str(), "2024-02-29");
    let e = Day::try_from("2023-02-29".to_string()).unwrap_err();
    assert_eq!(e.message(), "`2023-02-29` is not a date of the form YYYY-MM-DD");
}

#[test]
fn schedules_are_one_of_delay_or_cron() {
    assert_eq!(Schedule::parse(None, None, Timestamp(5)).unwrap(), Schedule::Now);
    assert_eq!(Schedule::parse(Some(10), None, Timestamp(5)).unwrap(), Schedule::At(Timestamp(10_005)));
    assert_eq!(Schedule::parse(Some(10), Some("0 9 * * *"), Timestamp(5)).unwrap_err(), ScheduleError::Both);
    match Schedule::parse(None, Some("0 9 * * *"), Timestamp(0)).unwrap() {
        Schedule::Cron { next, .. } => assert!(next.0 > 0),
        other => panic!("expected a cron schedule, got {other:?}"),
    }
    assert!(matches!(Schedule::parse(None, Some("nonsense"), Timestamp(0)), Err(ScheduleError::NotACron { .. })));
    assert_eq!(ScheduleError::Both.message(), "`in_seconds` and `cron` are two different schedules. Give one, not both.");
    assert_eq!(Schedule::At(Timestamp(4)).not_before(), Some(Timestamp(4)));
    assert_eq!(Schedule::Now.re_armed(Timestamp(0)), None);
    assert_eq!(CronExpr::try_from(" */5 * * * * ").unwrap().to_string(), "*/5 * * * *");
    let now = Timestamp(1_700_000_000_000);
    let every = Schedule::parse(None, Some("* * * * *"), now).unwrap();
    match every.re_armed(now) {
        Some(Schedule::Cron { next, .. }) => assert!(next.0 > now.0),
        other => panic!("expected a re-armed cron, got {other:?}"),
    }
}

#[test]
fn priorities_and_states_have_one_spelling() {
    assert_eq!(TaskPriority::default(), TaskPriority::Normal);
    assert_eq!(TaskPriority::from_str("high"), Some(TaskPriority::High));
    assert_eq!(TaskPriority::Low.as_str(), "low");
    assert_eq!(TaskStateName::from_str("completed"), Some(TaskStateName::Completed));
    assert_eq!(TaskStateName::from_str("done"), None);
    assert!(TaskState::Cancelled { at: Timestamp(0) }.is_terminal());
    assert!(!TaskState::Pending.is_terminal());
    assert_eq!(TaskResult::Failed("no".to_string()).content(), "no");
}

#[test]
fn a_task_answer_is_its_result_under_its_title() {
    let task = Task {
        id: TaskId(1),
        run: RunId(1),
        title: Title::try_from("Sum".to_string()).unwrap(),
        brief: Brief::try_from("Add".to_string()).unwrap(),
        role: RoleName::Research,
        state: TaskState::Completed { result: TaskResult::Succeeded("4".to_string()), at: Timestamp(1) },
        schedule: Schedule::Now,
        subscriber: None,
        priority: TaskPriority::Normal,
        created_by: Creator::Cli,
        created_at: Timestamp(0),
    };
    assert_eq!(task.render_answer(), "Answer to \"Sum\":\n4");
    assert_eq!(task.render_cancelled(), "Task \"Sum\" was cancelled.");
}

#[test]
fn messages_render_for_a_reader() {
    assert_eq!(Message::User { content: "hi".to_string() }.render(), "[user] hi");
    let calls = NonEmpty::new(ToolCall { id: "1".to_string(), name: "f".to_string(), arguments: "{}".to_string() }, Vec::new());
    let m = Message::Assistant { body: AssistantBody::Calls { preamble: Some("p".to_string()), calls }, reasoning: None };
    assert_eq!(m.render(), "[assistant] p\n  tool call: f({})");
    assert_eq!(m.describe(), "assistant: 1 tool call(s)");
    assert_eq!(Message::Tool { tool_call_id: "1".to_string(), content: "r".to_string() }.describe(), "tool result for 1");
    let n = NonEmpty::from_vec(vec![1, 2, 3]).unwrap();
    assert_eq!((n.len(), *n.first(), n.is_empty()), (3, 1, false));
    assert!(NonEmpty::<u8>::from_vec(Vec::new()).is_none());
}

#[test]
fn call_usage_is_only_for_finished_calls() {
    let u = Usage { cached: 1, prefill: 2, produced: 3, cost: Cost(4) };
    let done = CallStatus::Done { sent_at: Timestamp(0), finished_at: Timestamp(1), reply: sandman::domain::message::Reply::Text(String::new()), usage: u };
    assert_eq!(done.usage(), Some(u));
    assert!(!done.is_outstanding());
    assert!(CallStatus::Queued.is_outstanding());
    assert_eq!(CallStatus::Queued.usage(), None);
}

#[test]
fn roles_have_their_tools_and_spellings() {
    assert_eq!(RoleName::from_str("task_manager"), Some(RoleName::TaskManager));
    assert_eq!(tools_for(RoleName::Memory), vec![ToolName::CreateTask, ToolName::AwaitResult, ToolName::SearchLessons, ToolName::SearchTasks, ToolName::ViewSession]);
    assert!(!tools_for(RoleName::Research).contains(&ToolName::MessageHuman));
    assert_eq!(ChannelKind::from_str("matrix"), Some(ChannelKind::Matrix));
    assert_eq!(Who::Sandman.as_str(), "sandman");
    assert_eq!(
        LessonSubject::Task { task: TaskId(2), role: RoleName::Research, title: Title::try_from("Find".to_string()).unwrap() }.describe(),
        "Find (research, t-02)"
    );
}

#[test]
fn the_slot_goes_by_tier_then_arrival() {
    let mut q = SlotQueue::new();
    let (a, granted) = q.acquire(Tier::TaskLow);
    assert_eq!((a, granted), (0, Some(0)));
    let (b, granted) = q.acquire(Tier::TaskNormal);
    assert_eq!((b, granted), (1, None));
    let (c, _) = q.acquire(Tier::Comms);
    let (d, _) = q.acquire(Tier::Comms);
    assert_eq!(q.waiting(), 3);
    assert_eq!(q.release(), Some(c));
    assert_eq!(q.release(), Some(d));
    assert_eq!(q.release(), Some(b));
    assert_eq!(q.release(), None);
    assert_eq!(Tier::from(TaskPriority::High), Tier::TaskHigh);
    assert_eq!(Tier::from_rank(3), Some(Tier::Metacognition));
}
