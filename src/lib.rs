//! Supervision of a background proxy process: a process-id record with
//! stale-record healing, a latency race between download mirrors, and a
//! sequence of tunnel providers tried one after another. Each part that waits
//! on the outside world is a step machine: the host performs the action it
//! asks for and reports back with an event.

pub mod text;
pub mod supervisor;
pub mod mirror;
pub mod tunnel;
pub mod provision;
pub mod cli;
pub mod config;
