//! The core of an autonomous IDE agent.
//!
//! Given a task and a project, the agent asks a model, reads from its
//! answer either a tool call or the final answer, has the tool run, and
//! feeds the result back, until the task is done or a guardrail stops the
//! run. This crate holds the decisions of that loop and proves what they
//! promise; it reads no file and sends no request. The caller does what the
//! crate tells it to do and reports what came of it.
//!
//! - [`agent`]: the run, turn by turn, with its guardrails and its effects.
//! - [`parser`]: the tool call in a model's answer.
//! - [`tools`]: tool calls, exact-match patching, and the executor.
//! - [`orchestration`] and [`selector`]: from a task to a role, a model
//!   and a provider.
//! - [`audit`]: the events and the summary of a session.
//! - [`prompt`], [`context`], [`router`], [`runtime`]: requests outside the
//!   agent loop.
//! - [`mcp`]: external tools and context.
//! - [`json`], [`paths`], [`text`], [`order`]: values, paths, texts and
//!   their order.

pub mod agent;
pub mod audit;
pub mod context;
pub mod error;
pub mod gigachat;
pub mod json;
pub mod local;
pub mod mcp;
pub mod model_manager;
pub mod order;
pub mod orchestration;
pub mod parser;
pub mod paths;
pub mod project;
pub mod prompt;
pub mod providers;
pub mod router;
pub mod runtime;
pub mod selector;
pub mod text;
pub mod tools;
pub mod ui;
pub mod workspace;
