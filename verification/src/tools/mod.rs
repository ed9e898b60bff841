//! Tools that the agent may invoke on a project directory.

pub mod executor;
pub mod patch;
pub mod types;
