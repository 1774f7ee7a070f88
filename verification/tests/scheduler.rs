use sandman::db::Backing;
use sandman::domain::call::{CallStatus, Usage};
use sandman::domain::ids::CallId;
use sandman::domain::message::{Completion, Reply};
use sandman::domain::time::{Cost, Timestamp};
use sandman::model::ModelError;
use sandman::scheduler::{settle, SchedulerError};
use sandman::store::StoreError;

#[test]
fn a_completed_call_is_recorded_done_with_its_usage() {
    let usage = Usage { cached: 0, prefill: 3, produced: 4, cost: Cost(9) };
    let completion = Completion { reply: Reply::Text("hi".to_string()), reasoning: None, usage };
    let (status, result) = settle(CallId(1), Timestamp(10), Timestamp(20), Ok(completion.clone()));
    assert_eq!(status, CallStatus::Done { sent_at: Timestamp(10), finished_at: Timestamp(20), reply: Reply::Text("hi".to_string()), usage });
    assert_eq!(result, Ok(completion));
}

#[test]
fn a_failed_call_is_recorded_with_the_models_words() {
    let error = ModelError::Status { status: 429, body: "slow down".to_string() };
    let (status, result) = settle(CallId(2), Timestamp(10), Timestamp(11), Err(error.clone()));
    assert_eq!(status, CallStatus::Failed { sent_at: Timestamp(10), finished_at: Timestamp(11), error: "HTTP 429: slow down".to_string() });
    assert_eq!(result, Err(SchedulerError::Call { call: CallId(2), source: error }));
}

#[test]
fn scheduler_and_model_errors_read_as_sentences() {
    assert_eq!(ModelError::Transport("refused".to_string()).message(), "could not reach the model: refused");
    assert_eq!(ModelError::Malformed("eof".to_string()).message(), "the model's answer could not be read: eof");
    assert_eq!(SchedulerError::Call { call: CallId(1), source: ModelError::Transport("x".to_string()) }.message(), "could not reach the model: x");
    assert_eq!(SchedulerError::Store(StoreError::NoSuch { what: "call", id: "call-01".to_string() }).message(), "there is no call call-01");
    assert!(Backing::File(std::path::PathBuf::from("/tmp/x.sqlite")).is_file());
    assert!(!Backing::Memory.is_file());
    let dir = sandman::bench::report::run_dir(&std::path::PathBuf::from("bench/runs"), "20240101", "hello", 3);
    assert_eq!(dir, std::path::PathBuf::from("bench/runs/20240101/hello-run3"));
}
