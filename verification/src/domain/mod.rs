//! Vocabulary for Sandman: every definition, and the small rules that go with it.
pub mod call;
pub mod channel;
pub mod ids;
pub mod lesson;
pub mod message;
pub mod run;
pub mod session;
pub mod task;
pub mod text;
pub mod time;
