//! Sandman: one queue, one database, one Event stream, two Session shapes.
pub mod bench;
pub mod channels;
pub mod cli;
pub mod comms;
pub mod config;
pub mod control;
pub mod db;
pub mod domain;
pub mod event;
pub mod harness;
pub mod log;
pub mod memory;
pub mod model;
pub mod paths;
pub mod prompts;
pub mod reflect;
pub mod roles;
pub mod scheduler;
pub mod session;
pub mod store;
pub mod strings;
pub mod tools;
pub mod worker;
