use sandman::channels::{read_line, Typed};
use sandman::domain::message::Message;
use sandman::domain::session::Outcome;
use sandman::domain::task::TaskResult;
use sandman::domain::text::Brief;
use sandman::prompts::{system_prompt, Prompts};
use sandman::roles::RoleName;
use sandman::session::Turn;
use sandman::worker::{after_review, after_turn, worker_transcript, AfterTurn, Worked};

fn prompts() -> Prompts {
    Prompts {
        mechanics: "M".to_string(),
        comms_session: "C".to_string(),
        research: "R".to_string(),
        planning: "P".to_string(),
        memory: "Y".to_string(),
        task_manager: "T".to_string(),
        meta_system: "S".to_string(),
        review: "V".to_string(),
        interrupt: "I".to_string(),
    }
}

#[test]
fn a_turn_is_reviewed_failed_or_abandoned() {
    assert_eq!(after_turn(Turn::Text("a".to_string())), AfterTurn::Review);
    assert_eq!(after_turn(Turn::Silent), AfterTurn::Review);
    assert_eq!(after_turn(Turn::Unreachable("down".to_string())), AfterTurn::Finish(TaskResult::Failed("down".to_string())));
    assert_eq!(after_turn(Turn::Cancelled), AfterTurn::Abort);
}

#[test]
fn only_a_summary_completes_the_task() {
    assert_eq!(after_review(Outcome::Complete("42".to_string())), Worked::Done(TaskResult::Succeeded("42".to_string())));
    assert_eq!(after_review(Outcome::Feedback("again".to_string())), Worked::Continue(Some("again".to_string())));
    assert_eq!(after_review(Outcome::Nothing), Worked::Continue(None));
}

#[test]
fn a_worker_starts_from_its_prompt_and_brief() {
    let p = prompts();
    assert_eq!(system_prompt(&p, RoleName::Memory), "M\n\nY");
    assert_eq!(sandman::roles::system_prompt(&p, RoleName::TaskManager), "M\n\nT");
    let brief = Brief::try_from("Do the thing".to_string()).unwrap();
    assert_eq!(worker_transcript(&p, RoleName::Planning, &brief), vec![
        Message::System { content: "M\n\nP".to_string() },
        Message::User { content: "Do the thing".to_string() },
    ]);
}

#[test]
fn a_typed_line_is_said_or_quits() {
    assert_eq!(read_line("hello\r\n"), Typed::Said("hello".to_string()));
    assert_eq!(read_line("/quit\n"), Typed::Quit);
    assert_eq!(read_line(" /quit\n"), Typed::Said(" /quit".to_string()));
    assert_eq!(read_line(""), Typed::Said(String::new()));
}
