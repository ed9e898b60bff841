//! The agent loop: a bounded state machine that asks a model, reads a tool
//! call or a final answer from its response, has the tool run, and feeds
//! the result back, until the task is done or a guardrail stops the run.

pub mod guardrails;
pub mod progress;
pub mod run;
