use sandman::db::DbError;
use sandman::domain::call::{CallStatus, Usage};
use sandman::domain::ids::{ChannelId, RunId, SessionId, TaskId};
use sandman::domain::message::Reply;
use sandman::domain::session::SessionStatus;
use sandman::domain::task::{Creator, Schedule, Task, TaskPriority, TaskResult, TaskState, TaskStateName};
use sandman::domain::text::{Brief, Title};
use sandman::domain::time::{Cost, Duration, Timestamp};
use sandman::roles::RoleName;
use sandman::store::{cancels, checked_spend, completion, pick_next, list_of, ListFilter, daughter_of, fire, firing, next_due_in, Firing, recover_call, recover_session, recover_task, spend_of, subscriber_of, StoreError};

fn done(prefill: u64, produced: u64, cached: u64, cost: i64) -> CallStatus {
    CallStatus::Done {
        sent_at: Timestamp(0),
        finished_at: Timestamp(1),
        reply: Reply::Text(String::new()),
        usage: Usage { cached, prefill, produced, cost: Cost(cost) },
    }
}

#[test]
fn only_a_running_task_completes() {
    let result = TaskResult::Succeeded("yes".to_string());
    let running = TaskState::Running { session: SessionId(1), started_at: Timestamp(1) };
    assert_eq!(
        completion(TaskId(1), Some(running), result.clone(), Timestamp(9)),
        Ok(TaskState::Completed { result: result.clone(), at: Timestamp(9) })
    );
    assert_eq!(
        completion(TaskId(1), Some(TaskState::Cancelled { at: Timestamp(2) }), result.clone(), Timestamp(9)),
        Err(StoreError::NotRunning { task: TaskId(1), state: TaskStateName::Cancelled })
    );
    let twice = TaskState::Completed { result: result.clone(), at: Timestamp(3) };
    assert_eq!(
        completion(TaskId(1), Some(twice), result.clone(), Timestamp(9)),
        Err(StoreError::NotRunning { task: TaskId(1), state: TaskStateName::Completed })
    );
    assert_eq!(
        completion(TaskId(4), None, result, Timestamp(9)),
        Err(StoreError::NoSuch { what: "task", id: "t-04".to_string() })
    );
}

#[test]
fn store_errors_read_as_sentences() {
    assert_eq!(StoreError::NoSuch { what: "task", id: "t-04".to_string() }.message(), "there is no task t-04");
    assert_eq!(
        StoreError::NotRunning { task: TaskId(1), state: TaskStateName::Cancelled }.message(),
        "task t-01 is cancelled, not running; it will not be completed"
    );
    assert_eq!(StoreError::Db(DbError::Corrupt("bad".to_string())).message(), "bad");
}

#[test]
fn cancelling_skips_what_is_missing_or_ended() {
    assert!(!cancels(&None));
    assert!(cancels(&Some(TaskState::Pending)));
    assert!(cancels(&Some(TaskState::Running { session: SessionId(1), started_at: Timestamp(0) })));
    assert!(!cancels(&Some(TaskState::Cancelled { at: Timestamp(0) })));
    assert!(!cancels(&Some(TaskState::Completed { result: TaskResult::Failed("no".to_string()), at: Timestamp(0) })));
}

#[test]
fn a_dead_run_leaves_nothing_in_flight() {
    let running = TaskState::Running { session: SessionId(1), started_at: Timestamp(0) };
    assert_eq!(recover_task(&running, Timestamp(7)), Some(TaskState::Cancelled { at: Timestamp(7) }));
    assert_eq!(recover_task(&TaskState::Pending, Timestamp(7)), None);
    assert_eq!(recover_call(&CallStatus::Queued, Timestamp(7)), Some(CallStatus::Dropped { at: Timestamp(7) }));
    assert_eq!(recover_call(&CallStatus::InFlight { sent_at: Timestamp(1) }, Timestamp(7)), Some(CallStatus::Dropped { at: Timestamp(7) }));
    assert_eq!(recover_call(&done(1, 1, 0, 0), Timestamp(7)), None);
    assert_eq!(recover_session(false), Some(SessionStatus::Cancelled));
    assert_eq!(recover_session(true), None);
}

#[test]
fn the_subscriber_follows_the_creator() {
    assert_eq!(subscriber_of(Creator::Session(SessionId(3)), Some(ChannelId(2)), None), Some(ChannelId(2)));
    assert_eq!(subscriber_of(Creator::Session(SessionId(3)), None, None), None);
    assert_eq!(subscriber_of(Creator::Cli, Some(ChannelId(2)), Some(ChannelId(5))), None);
    assert_eq!(subscriber_of(Creator::Control, None, Some(ChannelId(5))), None);
    assert_eq!(subscriber_of(Creator::CronTask(TaskId(1)), None, Some(ChannelId(5))), Some(ChannelId(5)));
}

#[test]
fn a_cron_daughter_is_due_now_and_names_its_mother() {
    let cron = Task {
        id: TaskId(8),
        run: RunId(1),
        title: Title::try_from("Daily".to_string()).unwrap(),
        brief: Brief::try_from("Say hello".to_string()).unwrap(),
        role: RoleName::Planning,
        state: TaskState::Pending,
        schedule: Schedule::Now,
        subscriber: Some(ChannelId(1)),
        priority: TaskPriority::Low,
        created_by: Creator::Cli,
        created_at: Timestamp(0),
    };
    let d = daughter_of(&cron);
    assert_eq!(d.title.as_str(), "Daily");
    assert_eq!(d.brief.as_str(), "Say hello");
    assert_eq!(d.role, RoleName::Planning);
    assert_eq!(d.priority, TaskPriority::Low);
    assert_eq!(d.schedule, Schedule::Now);
    assert_eq!(d.created_by, Creator::CronTask(TaskId(8)));
}

#[test]
fn a_cron_task_retires_or_spawns_and_re_arms() {
    let mut cron = Task {
        id: TaskId(8),
        run: RunId(1),
        title: Title::try_from("Daily".to_string()).unwrap(),
        brief: Brief::try_from("Say hello".to_string()).unwrap(),
        role: RoleName::Planning,
        state: TaskState::Pending,
        schedule: Schedule::Now,
        subscriber: Some(ChannelId(1)),
        priority: TaskPriority::Low,
        created_by: Creator::Cli,
        created_at: Timestamp(0),
    };
    assert!(matches!(firing(&cron, None, Timestamp(5)), Firing::Retire(TaskState::Cancelled { at: Timestamp(5) })));
    match firing(&cron, Some(Schedule::At(Timestamp(9))), Timestamp(5)) {
        Firing::Spawn { daughter, subscriber, rearmed } => {
            assert_eq!(daughter.schedule, Schedule::Now);
            assert_eq!(daughter.created_by, Creator::CronTask(TaskId(8)));
            assert_eq!(subscriber, Some(ChannelId(1)));
            assert_eq!(rearmed, Schedule::At(Timestamp(9)));
        },
        other => panic!("expected a daughter, got {other:?}"),
    }
    assert!(matches!(fire(&cron, Timestamp(5)), Firing::Retire(TaskState::Cancelled { at: Timestamp(5) })));
    let now = Timestamp(1_700_000_000_000);
    cron.schedule = Schedule::parse(None, Some("* * * * *"), now).unwrap();
    match fire(&cron, now) {
        Firing::Spawn { rearmed, .. } => assert!(rearmed.not_before().unwrap().0 > now.0),
        other => panic!("expected a daughter, got {other:?}"),
    }
}

#[test]
fn the_next_due_task_is_waited_for_never_below_zero() {
    assert_eq!(next_due_in(Some(Timestamp(1_500)), Timestamp(1_000)), Some(Duration(500)));
    assert_eq!(next_due_in(Some(Timestamp(500)), Timestamp(1_000)), Some(Duration(0)));
    assert_eq!(next_due_in(None, Timestamp(1_000)), None);
}

#[test]
fn spend_counts_finished_calls_and_only_work_done() {
    let calls = vec![
        done(100, 20, 1_000, 5),
        CallStatus::Queued,
        CallStatus::Failed { sent_at: Timestamp(0), finished_at: Timestamp(1), error: "x".to_string() },
        done(10, 2, 0, 7),
        CallStatus::Dropped { at: Timestamp(3) },
    ];
    let s = spend_of(&calls);
    assert_eq!(s.calls, 2);
    assert_eq!(s.tokens, 132);
    assert_eq!(s.cost, Cost(12));
    let none = spend_of(&Vec::new());
    assert_eq!((none.calls, none.tokens, none.cost), (0, 0, Cost(0)));
    assert_eq!(checked_spend(&calls), Some(s));
    let huge = vec![done(u64::MAX, 1, 0, 0)];
    assert_eq!(checked_spend(&huge), None);
}

fn queued(id: u32, state: TaskState) -> Task {
    Task {
        id: TaskId(id),
        run: RunId(1),
        title: Title::try_from(format!("Task {id}")).unwrap(),
        brief: Brief::try_from("Do it".to_string()).unwrap(),
        role: RoleName::Research,
        state,
        schedule: Schedule::Now,
        subscriber: None,
        priority: TaskPriority::Normal,
        created_by: Creator::Cli,
        created_at: Timestamp(id as i64),
    }
}

#[test]
fn a_listing_keeps_the_asked_state_and_the_first_few() {
    let tasks = || vec![queued(3, TaskState::Pending), queued(2, TaskState::Cancelled { at: Timestamp(1) }), queued(1, TaskState::Pending)];
    let all = list_of(tasks(), &ListFilter { state: None, count: None });
    assert_eq!(all.iter().map(|t| t.id).collect::<Vec<_>>(), vec![TaskId(3), TaskId(2), TaskId(1)]);
    let pending = list_of(tasks(), &ListFilter { state: Some(TaskStateName::Pending), count: None });
    assert_eq!(pending.iter().map(|t| t.id).collect::<Vec<_>>(), vec![TaskId(3), TaskId(1)]);
    let first = list_of(tasks(), &ListFilter { state: Some(TaskStateName::Pending), count: Some(1) });
    assert_eq!(first.len(), 1);
    assert_eq!(first[0].id, TaskId(3));
    assert_eq!(first[0].title.as_str(), "Task 3");
    assert!(list_of(tasks(), &ListFilter { state: None, count: Some(0) }).is_empty());
}

#[test]
fn the_queue_hands_out_the_earliest_due_then_the_oldest() {
    let mut later = queued(1, TaskState::Pending);
    later.schedule = Schedule::At(Timestamp(50));
    let mut soon = queued(2, TaskState::Pending);
    soon.schedule = Schedule::At(Timestamp(-5));
    let tasks = vec![later.clone(), queued(4, TaskState::Pending), queued(3, TaskState::Pending), soon.clone(), queued(0, TaskState::Cancelled { at: Timestamp(0) })];
    assert_eq!(pick_next(&tasks, Timestamp(10)), Some(3));
    let tasks = vec![later.clone(), queued(4, TaskState::Pending), queued(3, TaskState::Pending)];
    assert_eq!(pick_next(&tasks, Timestamp(10)), Some(2));
    assert_eq!(pick_next(&vec![later.clone()], Timestamp(10)), None);
    assert_eq!(pick_next(&vec![later], Timestamp(50)), Some(0));
    assert_eq!(pick_next(&Vec::new(), Timestamp(0)), None);
}
