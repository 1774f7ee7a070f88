use sandman::domain::ids::{ChannelId, SessionId, TaskId};
use sandman::domain::message::{AssistantBody, Message, NonEmpty, Reply, ToolCall};
use sandman::domain::session::SessionKind;
use sandman::domain::task::{TaskResult, TaskState};
use sandman::domain::time::Timestamp;
use sandman::model::Purpose;
use sandman::roles::{RoleName, ToolName};
use sandman::session::{after_reply, cancelled, interrupt_due, round_start, told, tool_answer, tools_and_purpose, Round, Step, Turn};

#[test]
fn the_interrupt_is_due_every_so_many_messages() {
    assert!(interrupt_due(15, 0, 15));
    assert!(!interrupt_due(14, 0, 15));
    assert!(interrupt_due(30, 12, 15));
    assert!(!interrupt_due(3, 12, 15));
}

#[test]
fn a_cancelled_task_ends_the_turn() {
    assert!(cancelled(&Some(TaskState::Cancelled { at: Timestamp(1) })));
    assert!(!cancelled(&Some(TaskState::Pending)));
    assert!(!cancelled(&Some(TaskState::Completed { result: TaskResult::Succeeded("x".to_string()), at: Timestamp(1) })));
    assert!(!cancelled(&None));
}

#[test]
fn a_round_ends_on_cancellation_before_the_interrupt() {
    let gone = Some(TaskState::Cancelled { at: Timestamp(1) });
    assert_eq!(round_start(&gone, Some(40), 0, 15), Round::End(Turn::Cancelled));
    assert_eq!(round_start(&gone, None, 0, 15), Round::End(Turn::Cancelled));
    assert_eq!(round_start(&Some(TaskState::Pending), Some(40), 0, 15), Round::Interrupt);
    assert_eq!(round_start(&None, Some(20), 10, 15), Round::Ask);
    assert_eq!(round_start(&None, None, 0, 0), Round::Ask);
}

#[test]
fn plain_text_ends_the_turn_and_blank_text_is_silence() {
    let (entry, step) = after_reply(Reply::Text("done".to_string()), Some("why".to_string()));
    assert_eq!(entry, Message::Assistant { body: AssistantBody::Text("done".to_string()), reasoning: Some("why".to_string()) });
    assert_eq!(step, Step::Ended(Turn::Text("done".to_string())));
    let (_, step) = after_reply(Reply::Text(" \n".to_string()), None);
    assert_eq!(step, Step::Ended(Turn::Silent));
}

#[test]
fn tool_calls_are_run_in_the_order_asked() {
    let a = ToolCall { id: "1".to_string(), name: "create_task".to_string(), arguments: "{}".to_string() };
    let b = ToolCall { id: "2".to_string(), name: "await_result".to_string(), arguments: "{}".to_string() };
    let (_, step) = after_reply(Reply::Calls { preamble: None, calls: NonEmpty::new(a.clone(), vec![b.clone()]) }, None);
    assert_eq!(step, Step::Run(vec![a.clone(), b]));
    assert_eq!(tool_answer(&a, "ok".to_string()), Message::Tool { tool_call_id: "1".to_string(), content: "ok".to_string() });
    assert_eq!(told("mail"), Message::User { content: "mail".to_string() });
}

#[test]
fn a_worker_gets_its_roles_tools_and_comms_only_creates_tasks() {
    let (tools, purpose) = tools_and_purpose(&SessionKind::Worker { task: TaskId(1), role: RoleName::Planning });
    assert_eq!(tools, vec![ToolName::CreateTask, ToolName::CreateTaskFull, ToolName::AwaitResult, ToolName::MessageHuman]);
    assert_eq!(purpose, Purpose::Work(RoleName::Planning));
    let (tools, purpose) = tools_and_purpose(&SessionKind::Comms { channel: ChannelId(1), mailbox: Vec::new() });
    assert_eq!(tools, vec![ToolName::CreateTask]);
    assert_eq!(purpose, Purpose::Comms);
    let _ = SessionId(0);
}
