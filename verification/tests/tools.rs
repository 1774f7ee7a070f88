use sandman::domain::channel::ChannelKind;
use sandman::domain::ids::{ChannelId, LessonId, RunId, SessionId, TaskId};
use sandman::domain::lesson::{Lesson, LessonSubject};
use sandman::domain::message::Message;
use sandman::domain::session::{Reflection, ReflectionKind, ReflectionResult, Session, SessionKind, SessionStatus};
use sandman::domain::task::{Creator, Schedule, Task, TaskPriority, TaskResult, TaskState, TaskSummary};
use sandman::domain::text::{Brief, Day, Title};
use sandman::domain::time::Timestamp;
use sandman::domain::ids::CallId;
use sandman::harness::CancelOutcome;
use sandman::roles::{RoleName, ToolName};
use sandman::tools::create_task::{created_reply, new_task_from, priority_from, require_brief, require_role, require_title, schedule_from, ParsedArgs};
use sandman::tools::queue::{cancel_reply, list_channels, list_filter, message_target, render_list, sent_reply, task_arg};
use sandman::tools::recall::{never_ran, no_such_session, render_lesson_hits, render_session, render_task_hits, search_args, session_target, task_search_text, SessionTarget, VIEW_SESSION_CAP};
use sandman::tools::web::{check_url, decode_entities, html_to_text, render_results, SearchResult};
use sandman::tools::{resolve_call, ToolError};
use sandman::domain::task::TaskStateName;

fn title(s: &str) -> Title {
    Title::try_from(s.to_string()).unwrap()
}

fn brief(s: &str) -> Brief {
    Brief::try_from(s.to_string()).unwrap()
}

fn args(title: Option<&str>, brief: Option<&str>) -> ParsedArgs {
    ParsedArgs {
        title: title.map(|s| s.to_string()),
        brief: brief.map(|s| s.to_string()),
        role: None,
        run_at_seconds: None,
        repeat_seconds: None,
        priority: None,
    }
}

#[test]
fn tool_errors_read_as_sentences() {
    assert_eq!(ToolError::BadJson.message(), "Error: your arguments were not valid JSON. Try again.");
    assert_eq!(ToolError::Missing { field: "title" }.message(), "Error: `title` is required.");
    assert_eq!(ToolError::Rejected("no".to_string()).message(), "Error: no");
    assert_eq!(ToolError::NoSuchTool("fly".to_string()).message(), "Error: there is no tool called fly.");
    assert_eq!(ToolError::NoSuchTask("t-9".to_string()).message(), "Error: there is no Task t-9.");
    assert_eq!(
        ToolError::NoSuchRole { given: "chef".to_string() }.message(),
        "Error: `chef` is not a Role. Not one of: research, planning, memory, task_manager"
    );
}

#[test]
fn an_unknown_tool_is_named_before_bad_json_is() {
    assert_eq!(resolve_call("create_task", true), Ok(ToolName::CreateTask));
    assert_eq!(resolve_call("fly", false), Err(ToolError::NoSuchTool("fly".to_string())));
    assert_eq!(resolve_call("create_task", false), Err(ToolError::BadJson));
}

#[test]
fn the_common_create_task_plans_now() {
    let t = new_task_from(ToolName::CreateTask, args(Some("  Hello   world "), Some("Do it")), SessionId(2), Timestamp(0)).unwrap();
    assert_eq!(t.title.as_str(), "Hello world");
    assert_eq!(t.brief.as_str(), "Do it");
    assert_eq!(t.role, RoleName::Planning);
    assert_eq!(t.schedule, Schedule::Now);
    assert_eq!(t.priority, TaskPriority::Normal);
    assert_eq!(t.created_by, Creator::Session(SessionId(2)));
    let r = new_task_from(ToolName::CreateResearchTask, args(Some("Look"), Some("up")), SessionId(2), Timestamp(0)).unwrap();
    assert_eq!(r.role, RoleName::Research);
}

#[test]
fn create_task_refuses_what_is_missing_or_blank() {
    assert_eq!(new_task_from(ToolName::CreateTask, args(None, Some("b")), SessionId(1), Timestamp(0)), Err(ToolError::Missing { field: "title" }));
    assert_eq!(new_task_from(ToolName::CreateTask, args(Some("t"), None), SessionId(1), Timestamp(0)), Err(ToolError::Missing { field: "brief" }));
    assert_eq!(new_task_from(ToolName::CreateTask, args(Some("t"), Some(" \n ")), SessionId(1), Timestamp(0)), Err(ToolError::Rejected("a brief cannot be empty".to_string())));
    assert_eq!(require_title(Some("   ".to_string())).unwrap_err(), ToolError::Rejected("a title cannot be empty".to_string()));
    assert!(require_brief(Some("x".to_string())).is_ok());
}

#[test]
fn create_task_full_chooses_role_time_and_priority() {
    let mut a = args(Some("Later"), Some("brief"));
    a.role = Some("memory".to_string());
    a.run_at_seconds = Some(60);
    a.priority = Some("high".to_string());
    let t = new_task_from(ToolName::CreateTaskFull, a.clone(), SessionId(1), Timestamp(1_000)).unwrap();
    assert_eq!(t.role, RoleName::Memory);
    assert_eq!(t.schedule, Schedule::At(Timestamp(61_000)));
    assert_eq!(t.priority, TaskPriority::High);
    a.role = Some("chef".to_string());
    assert_eq!(new_task_from(ToolName::CreateTaskFull, a.clone(), SessionId(1), Timestamp(0)), Err(ToolError::NoSuchRole { given: "chef".to_string() }));
    a.priority = Some("urgent".to_string());
    assert_eq!(new_task_from(ToolName::CreateTaskFull, a.clone(), SessionId(1), Timestamp(0)), Err(ToolError::Rejected("`urgent` is not a priority. Use high, normal or low.".to_string())));
    a.run_at_seconds = Some(i64::MAX);
    assert_eq!(new_task_from(ToolName::CreateTaskFull, a.clone(), SessionId(1), Timestamp(0)), Err(ToolError::Rejected("`run_at_seconds` is too far off.".to_string())));
    a.repeat_seconds = Some(60);
    assert_eq!(new_task_from(ToolName::CreateTaskFull, a, SessionId(1), Timestamp(0)), Err(ToolError::Rejected("`repeat_seconds` cannot be honoured: no schedule repeats every so many seconds. Omit it.".to_string())));
    let mut bare = args(Some("Now"), Some("brief"));
    bare.role = Some("research".to_string());
    assert!(new_task_from(ToolName::CreateTaskFull, bare.clone(), SessionId(1), Timestamp(0)).is_ok());
    bare.title = Some("   ".to_string());
    assert_eq!(new_task_from(ToolName::CreateTaskFull, bare.clone(), SessionId(1), Timestamp(0)), Err(ToolError::Rejected("a title cannot be empty".to_string())));
    bare.title = Some("Now".to_string());
    bare.role = None;
    assert_eq!(new_task_from(ToolName::CreateTaskFull, bare, SessionId(1), Timestamp(0)), Err(ToolError::Missing { field: "role" }));
    assert_eq!(require_role(None), Err(ToolError::Missing { field: "role" }));
    assert_eq!(priority_from(None), Ok(TaskPriority::Normal));
    assert_eq!(schedule_from(None, Timestamp(9)), Ok(Schedule::Now));
}

#[test]
fn the_caller_is_told_how_the_answer_will_come() {
    assert_eq!(created_reply(true, TaskId(3)), "Created t-03. Call await_result with this id when you are ready for its answer.");
    assert_eq!(created_reply(false, TaskId(12)), "Created t-12. Its answer will reach you here when it is ready.");
}

fn summary(id: u32, state: TaskState, t: &str) -> TaskSummary {
    TaskSummary { id: TaskId(id), title: title(t), role: RoleName::Research, state, schedule: Schedule::Now, created_at: Timestamp(0) }
}

#[test]
fn the_queue_lists_one_line_per_task() {
    assert_eq!(render_list(&Vec::new()), "No Tasks match.");
    let tasks = vec![
        summary(2, TaskState::Pending, "Second"),
        summary(1, TaskState::Cancelled { at: Timestamp(3) }, "First"),
    ];
    assert_eq!(render_list(&tasks), "t-02 [pending] research: Second\nt-01 [cancelled] research: First");
}

#[test]
fn list_filters_refuse_a_state_that_is_none() {
    assert_eq!(list_filter(Some("done".to_string()), None), Err(ToolError::Rejected("`done` is not a Task state.".to_string())));
    let f = list_filter(Some("pending".to_string()), Some(3)).unwrap();
    assert_eq!(f.state, Some(TaskStateName::Pending));
    assert_eq!(f.count, Some(3));
    assert_eq!(list_filter(None, None).unwrap().count, None);
}

#[test]
fn cancellations_are_worded_by_what_they_found() {
    assert_eq!(cancel_reply(TaskId(2), &CancelOutcome::NotFound), "Error: there is no Task t-02.");
    assert_eq!(cancel_reply(TaskId(2), &CancelOutcome::Completed), "t-02 already completed. Nothing to stop.");
    assert_eq!(cancel_reply(TaskId(2), &CancelOutcome::Already), "t-02 was already cancelled.");
    assert_eq!(cancel_reply(TaskId(2), &CancelOutcome::Cancelled { running: false }), "Cancelled t-02.");
    assert_eq!(
        cancel_reply(TaskId(2), &CancelOutcome::Cancelled { running: true }),
        "Cancelled t-02. It was running; its Session will stop at its next decision point."
    );
    assert_eq!(task_arg(None), Err(ToolError::Missing { field: "task_id" }));
    assert_eq!(task_arg(Some("t-3x".to_string())), Err(ToolError::NoSuchTask("t-3x".to_string())));
    assert_eq!(task_arg(Some("t-07".to_string())), Ok(TaskId(7)));
}

#[test]
fn a_human_is_messaged_only_on_an_open_channel() {
    let open = vec![ChannelId(1)];
    assert_eq!(message_target(Some("ch-01".to_string()), Some("hi".to_string()), &open), Ok((ChannelId(1), "hi".to_string())));
    assert_eq!(message_target(Some("ch-02".to_string()), Some("hi".to_string()), &open), Err(ToolError::Rejected("ch-02 is not open.".to_string())));
    assert_eq!(message_target(Some("chan".to_string()), Some("hi".to_string()), &open), Err(ToolError::Rejected("`chan` is not an open Channel.".to_string())));
    assert_eq!(message_target(None, None, &open), Err(ToolError::Missing { field: "channel" }));
    assert_eq!(message_target(Some("ch-01".to_string()), None, &open), Err(ToolError::Missing { field: "text" }));
    assert_eq!(sent_reply(ChannelId(1)), "Sent to ch-01.");
    assert_eq!(list_channels(&vec![(ChannelId(1), ChannelKind::Stdio), (ChannelId(2), ChannelKind::Web)]), "ch-01 (stdio), ch-02 (web)");
}

#[test]
fn a_page_becomes_readable_text() {
    let page = "<html><head><style>p{}</style></head><body><p>Hello&nbsp;&amp; <b>world</b></p><SCRIPT>x()</SCRIPT></body></html>";
    assert_eq!(html_to_text(page), "Hello & world");
    assert_eq!(html_to_text("a &amp;lt; b"), "a &lt; b");
    assert_eq!(html_to_text("&amp;lt;b&amp;gt;"), "&lt;b&gt;");
    assert_eq!(html_to_text("a <b"), "a");
    assert_eq!(html_to_text("x<script>never closed"), "x");
    assert_eq!(html_to_text("  plain\n\ttext  "), "plain text");
    assert_eq!(decode_entities(&"&quot;&apos;&#39;&gt;".chars().collect()), "\"''>".chars().collect::<Vec<char>>());
}

#[test]
fn only_http_urls_are_fetched() {
    assert_eq!(check_url("https://example.org"), Ok(()));
    assert_eq!(check_url("http://example.org"), Ok(()));
    assert_eq!(check_url("ftp://example.org"), Err(ToolError::Rejected("`ftp://example.org` is not an http(s) URL.".to_string())));
}

#[test]
fn search_results_are_worded_with_the_engines_that_failed() {
    let hits = vec![
        SearchResult { title: "T".to_string(), url: "U".to_string(), content: "C".to_string() },
        SearchResult { title: "T2".to_string(), url: "U2".to_string(), content: String::new() },
    ];
    assert_eq!(render_results(&hits, &Vec::new()), "T\nU\nC\n\nT2\nU2\n");
    assert_eq!(
        render_results(&Vec::new(), &vec![("bing".to_string(), "too many requests".to_string())]),
        "No results.\n\nNote: these engines did not answer (rate limit): bing (too many requests)."
    );
}

#[test]
fn a_search_needs_a_query_and_defaults_to_five_hits() {
    assert_eq!(search_args(Some("q".to_string()), None), Ok(("q".to_string(), 5)));
    assert_eq!(search_args(Some("q".to_string()), Some(2)), Ok(("q".to_string(), 2)));
    assert_eq!(search_args(None, Some(2)), Err(ToolError::Missing { field: "query" }));
}

fn task(id: u32, state: TaskState) -> Task {
    Task {
        id: TaskId(id),
        run: RunId(1),
        title: title("Answer"),
        brief: brief("What is it?"),
        role: RoleName::Research,
        state,
        schedule: Schedule::Now,
        subscriber: None,
        priority: TaskPriority::Normal,
        created_by: Creator::Cli,
        created_at: Timestamp(0),
    }
}

#[test]
fn hits_show_where_they_came_from() {
    assert_eq!(render_lesson_hits(&Vec::new()), "No lessons match.");
    let lesson = Lesson {
        id: LessonId(1),
        run: RunId(1),
        text: "- tip".to_string(),
        day: Day::try_from("2024-05-01".to_string()).unwrap(),
        session: SessionId(4),
        about: LessonSubject::Conversation { channel: ChannelId(2) },
        at: Timestamp(0),
    };
    assert_eq!(render_lesson_hits(&vec![lesson]), "2024-05-01 — conversation on ch-02\n- tip\n(see s-04 for the full conversation)");
    let done = task(5, TaskState::Completed { result: TaskResult::Succeeded("42".to_string()), at: Timestamp(1) });
    let pending = task(6, TaskState::Pending);
    assert_eq!(render_task_hits(&vec![done.clone(), pending]), "t-05 — Answer\n42\n\nt-06 — Answer\nStill pending.");
    assert_eq!(render_task_hits(&Vec::new()), "No Tasks match.");
    assert_eq!(task_search_text(&done), "Answer\nWhat is it?");
}

fn session(messages: Vec<Message>, reflections: Vec<Reflection>) -> Session {
    Session {
        id: SessionId(1),
        run: RunId(1),
        kind: SessionKind::Worker { task: TaskId(1), role: RoleName::Planning },
        status: SessionStatus::Waiting,
        messages,
        reflections,
        calls: Vec::new(),
        started_at: Timestamp(0),
        ended_at: None,
    }
}

#[test]
fn a_session_is_shown_whole_and_capped() {
    let plain = session(vec![Message::User { content: "hi".to_string() }], Vec::new());
    assert_eq!(render_session(&plain), "[user] hi\n\n");
    let reflected = session(
        vec![Message::User { content: "hi".to_string() }],
        vec![Reflection { kind: ReflectionKind::Interrupt, call: CallId(1), after_message: 1, at: Timestamp(0), result: ReflectionResult::FailedOpen { error: "down".to_string() } }],
    );
    assert_eq!(render_session(&reflected), "[user] hi\n\n--- metacognition ---\n[Interrupt] failed open: down\n\n");
    let long = session(vec![Message::User { content: "x".repeat(50_000) }], Vec::new());
    let shown = render_session(&long);
    assert!(shown.ends_with("\n... (truncated)"));
    assert_eq!(shown.chars().count(), VIEW_SESSION_CAP);
    let kept: String = shown.chars().take(VIEW_SESSION_CAP - 16).collect();
    assert_eq!(kept, format!("[user] {}", "x".repeat(VIEW_SESSION_CAP - 16 - 7)));
}

#[test]
fn a_session_is_named_by_its_id_or_its_task() {
    assert_eq!(session_target(Some("s-03".to_string()), Some("t-01".to_string())), Ok(SessionTarget::Session(SessionId(3))));
    assert_eq!(session_target(None, Some("t-07".to_string())), Ok(SessionTarget::RanTask(TaskId(7))));
    assert_eq!(session_target(Some("bad".to_string()), None), Err(ToolError::Rejected("`bad` is not a Session id.".to_string())));
    assert_eq!(session_target(None, Some("x".to_string())), Err(ToolError::NoSuchTask("x".to_string())));
    assert_eq!(session_target(None, None), Err(ToolError::Rejected("Give either session_id or task_id.".to_string())));
    assert_eq!(never_ran(TaskId(2)), "No Session ever ran t-02.");
    assert_eq!(no_such_session(SessionId(9)), ToolError::Rejected("There is no Session s-09.".to_string()));
}
