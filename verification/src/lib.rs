//! Core logic of a personal study-planning backend.
//!
//! The crate owns the parts of the system that carry design weight and are
//! worth proving: the session store and authorization gate that every
//! operation passes through, the fuzzy content matcher that auto-completes
//! pending tasks, and the plan-synthesis pipeline that renders a prompt for
//! an external text-generation service and strictly validates its reply.
//! Storage and network transport live outside the crate and hand it plain
//! values.

pub mod ai;
pub mod auth;
pub mod countdown;
pub mod errors;
pub mod pomodoro;
pub mod reviews;
pub mod stats;
pub mod subjects;
pub mod suggestions;
pub mod tasks;
pub mod text;
pub mod timedate;
pub mod preferences;
pub mod prompt;
pub mod session;
pub mod similarity;
pub mod users;
