use sandman::domain::ids::{CallId, ChannelId, SessionId, TaskId};
use sandman::domain::lesson::LessonSubject;
use sandman::domain::message::{Message, NonEmpty, Reply, ToolCall};
use sandman::domain::session::{Nudge, Outcome, ReflectionKind, ReflectionResult, SessionKind};
use sandman::domain::text::Title;
use sandman::domain::time::Timestamp;
use sandman::reflect::{failed_open, lesson_from, lesson_subject, lessons_of, ran, read_outcome, reply_content, sandwich, section, SECTIONS};
use sandman::roles::RoleName;

#[test]
fn a_closed_section_is_read_and_trimmed() {
    assert_eq!(section("<summary> done </summary>", "summary"), Some("done".to_string()));
    assert_eq!(section("before <feedback>\n fix the title\n</feedback> after", "feedback"), Some("fix the title".to_string()));
}

#[test]
fn a_self_closing_section_is_empty() {
    assert_eq!(section("x <feedback/> y", "feedback"), Some(String::new()));
    assert_eq!(section("x <feedback  /> y", "feedback"), Some(String::new()));
}

#[test]
fn an_unclosed_section_ends_where_the_next_one_opens() {
    assert_eq!(section("<summary>  a  <feedback>b</feedback>", "summary"), Some("a".to_string()));
    assert_eq!(section("<lessons > keep this ", "lessons"), Some("keep this".to_string()));
}

#[test]
fn a_missing_or_malformed_section_is_none() {
    assert_eq!(section("no tags at all", "summary"), None);
    assert_eq!(section("<summaryX>text</summaryX>", "summary"), None);
    assert_eq!(SECTIONS, ["summary", "feedback", "lessons"]);
}

#[test]
fn feedback_takes_precedence_over_a_summary() {
    let both = "<summary>ok</summary>\n<feedback>fix it</feedback>";
    assert_eq!(read_outcome(ReflectionKind::Review, both), Outcome::Feedback("fix it".to_string()));
    assert_eq!(read_outcome(ReflectionKind::Interrupt, both), Outcome::Feedback("fix it".to_string()));
}

#[test]
fn a_summary_completes_only_under_review() {
    let summary = "<summary>the answer</summary>";
    assert_eq!(read_outcome(ReflectionKind::Review, summary), Outcome::Complete("the answer".to_string()));
    assert_eq!(read_outcome(ReflectionKind::Interrupt, summary), Outcome::Nothing);
    assert_eq!(read_outcome(ReflectionKind::Review, "<feedback>   </feedback><summary>s</summary>"), Outcome::Complete("s".to_string()));
    assert_eq!(read_outcome(ReflectionKind::Review, "nothing tagged"), Outcome::Nothing);
}

#[test]
fn an_interrupt_never_completes() {
    assert_eq!(Nudge::of(Outcome::Complete("x".to_string())), Nudge::Nothing);
    assert_eq!(Nudge::of(Outcome::Feedback("y".to_string())), Nudge::Feedback("y".to_string()));
    assert_eq!(Nudge::of(Outcome::Nothing), Nudge::Nothing);
    assert_eq!(Outcome::from(Nudge::Feedback("z".to_string())), Outcome::Feedback("z".to_string()));
}

#[test]
fn the_request_is_sandwiched_with_system_turned_to_user() {
    let transcript = vec![
        Message::System { content: "role prompt".to_string() },
        Message::User { content: "brief".to_string() },
    ];
    let out = sandwich("meta", transcript, "question");
    assert_eq!(out, vec![
        Message::System { content: "meta".to_string() },
        Message::User { content: "role prompt".to_string() },
        Message::User { content: "brief".to_string() },
        Message::System { content: "question".to_string() },
    ]);
}

#[test]
fn lessons_are_kept_only_when_not_blank() {
    assert_eq!(lessons_of("<lessons>- check the units</lessons>"), Some("- check the units".to_string()));
    assert_eq!(lessons_of("<lessons>   </lessons>"), None);
    assert_eq!(lessons_of("<summary>x</summary>"), None);
    let about = LessonSubject::Conversation { channel: ChannelId(1) };
    let kept = lesson_from(SessionId(4), about.clone(), "<lessons>one</lessons>").unwrap();
    assert_eq!(kept.text, "one");
    assert_eq!(kept.session, SessionId(4));
    assert_eq!(kept.about, about);
}

#[test]
fn a_lesson_is_anchored_on_what_the_session_did() {
    let worker = SessionKind::Worker { task: TaskId(3), role: RoleName::Research };
    let title = Title::try_from("Find it".to_string()).unwrap();
    match lesson_subject(&worker, Some(title)) {
        Some(LessonSubject::Task { task, role, title }) => {
            assert_eq!(task, TaskId(3));
            assert_eq!(role, RoleName::Research);
            assert_eq!(title.as_str(), "Find it");
        },
        other => panic!("expected a task subject, got {other:?}"),
    }
    assert_eq!(lesson_subject(&worker, None), None);
    let comms = SessionKind::Comms { channel: ChannelId(2), mailbox: Vec::new() };
    assert_eq!(lesson_subject(&comms, None), Some(LessonSubject::Conversation { channel: ChannelId(2) }));
}

#[test]
fn a_metacognition_that_ran_is_recorded_with_its_outcome() {
    let (reflection, outcome) = ran(ReflectionKind::Review, CallId(7), 12, Timestamp(5), None, "<summary>fine</summary>".to_string());
    assert_eq!(outcome, Outcome::Complete("fine".to_string()));
    assert_eq!(reflection.call, CallId(7));
    assert_eq!(reflection.after_message, 12);
    assert_eq!(reflection.result, ReflectionResult::Ran {
        reasoning: None,
        content: "<summary>fine</summary>".to_string(),
        outcome: Outcome::Complete("fine".to_string()),
    });
}

#[test]
fn a_metacognition_that_failed_opens_onto_nothing() {
    let (reflection, outcome) = failed_open(ReflectionKind::Interrupt, CallId(3), 4, Timestamp(9), "down".to_string());
    assert_eq!(outcome, Outcome::Nothing);
    assert_eq!(reflection.kind, ReflectionKind::Interrupt);
    assert_eq!(reflection.at, Timestamp(9));
    assert_eq!(reflection.result, ReflectionResult::FailedOpen { error: "down".to_string() });
}

#[test]
fn a_reply_with_calls_is_read_by_its_preamble() {
    assert_eq!(reply_content(Reply::Text("t".to_string())), "t");
    let calls = NonEmpty::new(ToolCall { id: "1".to_string(), name: "x".to_string(), arguments: "{}".to_string() }, Vec::new());
    assert_eq!(reply_content(Reply::Calls { preamble: Some("p".to_string()), calls: calls.clone() }), "p");
    assert_eq!(reply_content(Reply::Calls { preamble: None, calls }), "");
}
