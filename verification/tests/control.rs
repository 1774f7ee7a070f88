use sandman::cli::{list_request, task_request, TaskArgs};
use sandman::control::{plan, Action, Request, Response, TaskLine};
use sandman::domain::ids::TaskId;
use sandman::domain::task::{Creator, Schedule, TaskPriority, TaskState, TaskStateName, TaskSummary};
use sandman::domain::text::Title;
use sandman::domain::time::{Cost, Spend, Timestamp};
use sandman::roles::RoleName;
use sandman::store::{ListFilter, StoreError};

fn create(role: &str, title: &str, brief: &str, in_seconds: Option<i64>, cron: Option<&str>, priority: Option<&str>) -> Request {
    Request::CreateTask {
        role: role.to_string(),
        title: title.to_string(),
        brief: brief.to_string(),
        in_seconds,
        cron: cron.map(|s| s.to_string()),
        priority: priority.map(|s| s.to_string()),
    }
}

fn error(message: &str) -> Action {
    Action::Answer(Response::Error { message: message.to_string() })
}

#[test]
fn a_created_task_comes_from_the_control_socket() {
    match plan(create("research", "Look  it up", "brief", Some(30), None, Some("low")), Timestamp(1_000)) {
        Action::Create(t) => {
            assert_eq!(t.role, RoleName::Research);
            assert_eq!(t.title.as_str(), "Look it up");
            assert_eq!(t.schedule, Schedule::At(Timestamp(31_000)));
            assert_eq!(t.priority, TaskPriority::Low);
            assert_eq!(t.created_by, Creator::Control);
        },
        other => panic!("expected a Task, got {other:?}"),
    }
}

#[test]
fn each_refusal_is_answered_in_order() {
    assert_eq!(plan(create("chef", "", "", None, None, None), Timestamp(0)), error("`chef` is not a Role."));
    assert_eq!(plan(create("planning", " ", "", None, None, None), Timestamp(0)), error("a title cannot be empty"));
    assert_eq!(plan(create("planning", "t", "\t", None, None, None), Timestamp(0)), error("a brief cannot be empty"));
    assert_eq!(plan(create("planning", "t", "b", None, None, Some("asap")), Timestamp(0)), error("`asap` is not a priority. Use high, normal or low."));
    assert_eq!(
        plan(create("planning", "t", "b", Some(5), Some("0 9 * * *"), None), Timestamp(0)),
        error("`in_seconds` and `cron` are two different schedules. Give one, not both.")
    );
    match plan(create("planning", "t", "b", None, Some("not a cron"), None), Timestamp(0)) {
        Action::Answer(Response::Error { message }) => assert!(message.starts_with("`not a cron` is not a cron expression: ")),
        other => panic!("expected a refusal, got {other:?}"),
    }
}

#[test]
fn a_listing_names_a_real_state() {
    assert_eq!(plan(Request::ListTasks { state: None, count: Some(2) }, Timestamp(0)), Action::List(ListFilter { state: None, count: Some(2) }));
    assert_eq!(
        plan(Request::ListTasks { state: Some("running".to_string()), count: None }, Timestamp(0)),
        Action::List(ListFilter { state: Some(TaskStateName::Running), count: None })
    );
    assert_eq!(plan(Request::ListTasks { state: Some("idle".to_string()), count: None }, Timestamp(0)), error("`idle` is not a Task state."));
    assert_eq!(plan(Request::Spend, Timestamp(0)), Action::Spend);
}

#[test]
fn answers_are_written_from_what_the_store_gave() {
    assert_eq!(Response::created(TaskId(4)), Response::Created { id: "t-04".to_string() });
    assert_eq!(
        Response::spent(Spend { calls: 3, tokens: 120, cost: Cost(1_500_000_000) }),
        Response::Spent { calls: 3, tokens: 120, cost: "$1.500000".to_string() }
    );
    assert_eq!(Response::failed(&StoreError::NoSuch { what: "task", id: "t-01".to_string() }), Response::Error { message: "there is no task t-01".to_string() });
    let line = TaskLine::from(TaskSummary {
        id: TaskId(2),
        title: Title::try_from("T".to_string()).unwrap(),
        role: RoleName::Memory,
        state: TaskState::Pending,
        schedule: Schedule::At(Timestamp(77)),
        created_at: Timestamp(5),
    });
    assert_eq!(line, TaskLine {
        id: "t-02".to_string(),
        title: "T".to_string(),
        role: "memory".to_string(),
        state: "pending".to_string(),
        not_before: Some(77),
        created_at: 5,
    });
}

#[test]
fn a_one_shot_task_is_titled_by_its_brief_when_untitled() {
    let args = TaskArgs { role: "planning".to_string(), title: None, brief: "Greet me".to_string(), in_seconds: None, cron: None, priority: None };
    assert_eq!(task_request(args), create("planning", "Greet me", "Greet me", None, None, None));
    assert_eq!(list_request(None, Some(1)), Request::ListTasks { state: None, count: Some(1) });
}
