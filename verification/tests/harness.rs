use sandman::domain::ids::{ChannelId, RunId, SessionId, TaskId};
use sandman::domain::task::{Creator, Schedule, Task, TaskPriority, TaskResult, TaskState};
use sandman::domain::text::{Brief, Title};
use sandman::domain::time::{Duration, Timestamp};
use sandman::harness::{busy, cancellation, cancelled_outcome, first_ready, sleep_millis, step_start, unfinished, CancelOutcome, Cancellation, ChannelView, Drive, Start};
use sandman::roles::RoleName;

fn task(id: u32, state: TaskState, schedule: Schedule) -> Task {
    Task {
        id: TaskId(id),
        run: RunId(1),
        title: Title::try_from("T".to_string()).unwrap(),
        brief: Brief::try_from("B".to_string()).unwrap(),
        role: RoleName::Planning,
        state,
        schedule,
        subscriber: None,
        priority: TaskPriority::Normal,
        created_by: Creator::Cli,
        created_at: Timestamp(0),
    }
}

fn view(id: u32, has_mail: bool, driving: bool) -> ChannelView {
    ChannelView { channel: ChannelId(id), has_mail, driving }
}

#[test]
fn step_answers_mail_first_then_starts_work() {
    let channels = vec![view(1, false, false), view(2, true, true), view(3, true, false), view(4, true, false)];
    let next = Some(task(9, TaskState::Pending, Schedule::Now));
    assert_eq!(first_ready(&channels), Some(2));
    assert_eq!(step_start(Drive::Full, &channels, &next), Start::Respond(ChannelId(3)));
    assert_eq!(step_start(Drive::Full, &vec![view(1, false, false)], &next), Start::Work(TaskId(9)));
    assert_eq!(step_start(Drive::CommsOnly, &vec![view(1, false, false)], &next), Start::Nothing);
    assert_eq!(step_start(Drive::CommsOnly, &channels, &next), Start::Respond(ChannelId(3)));
    assert_eq!(step_start(Drive::Manual, &channels, &next), Start::Nothing);
    assert_eq!(step_start(Drive::Full, &Vec::new(), &None), Start::Nothing);
    assert!(Drive::CommsOnly.answers_mail() && !Drive::CommsOnly.starts_tasks());
}

#[test]
fn a_cron_task_fires_instead_of_running() {
    let cron_expr = sandman::domain::task::CronExpr::try_from("0 9 * * *").unwrap();
    let next = Some(task(4, TaskState::Pending, Schedule::Cron { expr: cron_expr, next: Timestamp(0) }));
    assert_eq!(step_start(Drive::Full, &Vec::new(), &next), Start::FireCron(TaskId(4)));
}

#[test]
fn cancelling_reports_or_stops_by_state() {
    assert_eq!(cancellation(&None), Cancellation::Report(CancelOutcome::NotFound));
    assert_eq!(cancellation(&Some(TaskState::Cancelled { at: Timestamp(1) })), Cancellation::Report(CancelOutcome::Already));
    assert_eq!(
        cancellation(&Some(TaskState::Completed { result: TaskResult::Succeeded("a".to_string()), at: Timestamp(1) })),
        Cancellation::Report(CancelOutcome::Completed)
    );
    assert_eq!(cancellation(&Some(TaskState::Pending)), Cancellation::Stop { holder: None });
    assert_eq!(
        cancellation(&Some(TaskState::Running { session: SessionId(5), started_at: Timestamp(1) })),
        Cancellation::Stop { holder: Some(SessionId(5)) }
    );
    assert_eq!(cancelled_outcome(Some(SessionId(5))), CancelOutcome::Cancelled { running: true });
    assert_eq!(cancelled_outcome(None), CancelOutcome::Cancelled { running: false });
}

#[test]
fn the_loop_sleeps_until_due_or_an_hour() {
    assert_eq!(sleep_millis(Some(Duration(250))), 250);
    assert_eq!(sleep_millis(Some(Duration(-5))), 0);
    assert_eq!(sleep_millis(None), 3_600_000);
}

#[test]
fn busy_while_anything_is_left() {
    let ended = vec![task(1, TaskState::Cancelled { at: Timestamp(0) }, Schedule::Now)];
    let open = vec![task(1, TaskState::Cancelled { at: Timestamp(0) }, Schedule::Now), task(2, TaskState::Pending, Schedule::Now)];
    assert!(!busy(false, false, false, Some(&ended)));
    assert!(busy(false, false, false, Some(&open)));
    assert!(busy(true, false, false, Some(&ended)));
    assert!(busy(false, false, true, Some(&ended)));
    assert!(busy(false, false, false, None));
    assert_eq!(unfinished(&open), vec![TaskId(2)]);
}
