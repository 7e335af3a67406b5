//! Core pipeline of a single-shot prompting agent: configuration
//! validation, prompt assembly from character/task/data fragments,
//! structured status logging, and the linear run orchestration.

pub mod config;
pub mod prompt;
pub mod record;
pub mod runner;
