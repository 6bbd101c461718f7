//! Download orchestration engine: a job queue with admission control,
//! per-job process supervision, progress parsing and proxy assignment.

pub mod text;
pub mod types;
pub mod tools;
pub mod scheduler;
pub mod logic;
pub mod command;
pub mod analysis;
pub mod session;
pub mod style;
