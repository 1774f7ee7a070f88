use sandman::domain::ids::{CallId, ChannelId, RunId, SessionId, TaskId};
use sandman::domain::message::Message;
use sandman::domain::run::Run;
use sandman::domain::session::SessionStatus;
use sandman::domain::task::{Schedule, TaskState};
use sandman::domain::time::Timestamp;
use sandman::event::{Event, QueuedCall};
use sandman::log::{body, elide, message_text, render, Echo, Verbosity};
use sandman::roles::ToolName;
use sandman::scheduler::Tier;

#[test]
fn a_short_body_is_quoted_whole_with_its_length() {
    assert_eq!(elide("hello"), "\"hello\" (5 chars)");
    assert_eq!(elide("say \"hi\"\n"), "\"say \\\"hi\\\"\\n\" (9 chars)");
}

#[test]
fn a_long_body_is_cut_to_a_snippet() {
    let long = "a".repeat(70);
    assert_eq!(elide(&long), format!("\"{}\"… (70 chars)", "a".repeat(60)));
    assert_eq!(body(Verbosity::Verbose, &long), format!("\"{}\"", long));
    assert_eq!(Verbosity::default(), Verbosity::Terse);
    assert_eq!(Echo::default(), Echo::Quiet);
}

#[test]
fn events_are_worded_one_line_each() {
    let run = Run { id: RunId(1), started_at: Timestamp(0), ended_at: None, model: "glm".to_string() };
    assert_eq!(render(Verbosity::Terse, &Event::RunStarted(run.clone())), "run-01 started, model glm");
    assert_eq!(render(Verbosity::Terse, &Event::RunEnded(run)), "run-01 ended");
    assert_eq!(render(Verbosity::Terse, &Event::TaskStateChanged { task: TaskId(3), to: TaskState::Pending }), "t-03 -> pending");
    assert_eq!(
        render(Verbosity::Terse, &Event::TaskReArmed { task: TaskId(1), to: Schedule::At(Timestamp(5)) }),
        "t-01 re-armed, next Some(Timestamp(5))"
    );
    assert_eq!(render(Verbosity::Terse, &Event::TaskReArmed { task: TaskId(1), to: Schedule::Now }), "t-01 re-armed, next None");
    assert_eq!(
        render(Verbosity::Terse, &Event::SessionStatusChanged { session: SessionId(2), to: SessionStatus::Reflecting }),
        "s-02 -> reflecting"
    );
    assert_eq!(
        render(Verbosity::Terse, &Event::CallQueued(QueuedCall { id: CallId(2), model: "m".to_string(), tier: Tier::Comms })),
        "call-02 queued, model m, tier Comms"
    );
    assert_eq!(
        render(Verbosity::Terse, &Event::ToolReturned { session: SessionId(1), name: ToolName::WebSearch, output: "ok".to_string() }),
        "s-01 web_search returned \"ok\" (2 chars)"
    );
    assert_eq!(
        render(Verbosity::Verbose, &Event::MessageAppended { session: SessionId(1), index: 4, message: Message::User { content: "hi".to_string() } }),
        "s-01 #4 user \"hi\""
    );
    assert_eq!(render(Verbosity::Terse, &Event::ChannelOpened { channel: ChannelId(1), session: SessionId(2) }), "ch-01 opened for s-02");
}

#[test]
fn events_fall_in_categories() {
    assert_eq!(Event::TaskStateChanged { task: TaskId(3), to: TaskState::Pending }.category(), "task");
    assert_eq!(Event::ChannelOpened { channel: ChannelId(1), session: SessionId(2) }.category(), "comms");
    assert_eq!(Event::ToolCalled { session: SessionId(1), name: ToolName::ListTasks, args: "{}".to_string() }.category(), "tool");
}

#[test]
fn a_line_pads_its_category() {
    assert_eq!(sandman::log::line("12:00:00.000", "run", "x"), "12:00:00.000 run     x");
    assert_eq!(sandman::log::line("t", "session", "y"), "t session y");
    assert_eq!(sandman::log::line("t", "overlong", "z"), "t overlong z");
    assert_eq!(message_text(&Message::Tool { tool_call_id: "1".to_string(), content: "c".to_string() }), "c");
}
