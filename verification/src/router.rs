//! Requests from the user interface, and their validation.

use crate::text::{is_blank, trimmed};
use vstd::prelude::*;
use vstd::string::StringExecFns;

verus! {

/// A request of the user interface.
#[derive(Debug, Clone)]
#[allow(inconsistent_fields)]
pub enum AiRequest {
    Chat { message: String },
    Explain { path: String, selection: Option<String> },
    Refactor { path: String, selection: String, instruction: String },
    Generate { path: String, prompt: String },
    /// Plan and call tools.
    Agent { message: String },
}

/// An answer as raw text.
#[derive(Debug, Clone)]
pub struct AiResponse {
    pub content: String,
    pub done: bool,
}

/// Why a request was refused.
#[derive(Debug, Clone)]
pub enum RouterError {
    Validation(String),
    NoProject,
}

impl RouterError {
    /// The text that `message` renders.
    pub open spec fn message_text(&self) -> Seq<char> {
        match self {
            RouterError::Validation(detail) => "Validation failed: "@ + detail@,
            RouterError::NoProject => "No project opened"@,
        }
    }

    /// The error as text.
    pub fn message(&self) -> (r: String)
        ensures
            r@ == self.message_text(),
    {
        match self {
            RouterError::Validation(detail) => {
                let mut s = String::from_str("Validation failed: ");
                s.append(detail.as_str());
                s
            },
            RouterError::NoProject => String::from_str("No project opened"),
        }
    }
}

/// A text is empty once trimmed.
pub open spec fn blank(s: Seq<char>) -> bool {
    trimmed(s).len() == 0
}

/// What is wrong with a request, if anything: a text that it needs is blank.
pub open spec fn complaint(request: AiRequest) -> Option<Seq<char>> {
    match request {
        AiRequest::Chat { message } => if blank(message@) {
            Some("Message cannot be empty"@)
        } else {
            None
        },
        AiRequest::Explain { path, .. } => if blank(path@) {
            Some("Path cannot be empty"@)
        } else {
            None
        },
        AiRequest::Refactor { path, selection, .. } => if blank(path@) || blank(selection@) {
            Some("Path and selection required"@)
        } else {
            None
        },
        AiRequest::Generate { path, prompt } => if blank(path@) || blank(prompt@) {
            Some("Path and prompt required"@)
        } else {
            None
        },
        AiRequest::Agent { message } => if blank(message@) {
            Some("Agent message cannot be empty"@)
        } else {
            None
        },
    }
}

/// Validates requests before they reach a model.
#[derive(Debug, Clone, Copy)]
pub struct CommandRouter;

impl CommandRouter {
    pub fn new() -> (r: CommandRouter) {
        CommandRouter
    }

    /// Accepts a request whose texts are not blank, and refuses any other
    /// with a `Validation` error that says what is missing.
    pub fn validate(&self, request: &AiRequest) -> (r: Result<(), RouterError>)
        ensures
            match complaint(*request) {
                Some(text) => r matches Err(RouterError::Validation(detail)) && detail@ == text,
                None => r is Ok,
            },
    {
        let problem: Option<&str> = match request {
            AiRequest::Chat { message } => if is_blank(message.as_str()) {
                Some("Message cannot be empty")
            } else {
                None
            },
            AiRequest::Explain { path, .. } => if is_blank(path.as_str()) {
                Some("Path cannot be empty")
            } else {
                None
            },
            AiRequest::Refactor { path, selection, .. } => if is_blank(path.as_str()) || is_blank(
                selection.as_str(),
            ) {
                Some("Path and selection required")
            } else {
                None
            },
            AiRequest::Generate { path, prompt } => if is_blank(path.as_str()) || is_blank(
                prompt.as_str(),
            ) {
                Some("Path and prompt required")
            } else {
                None
            },
            AiRequest::Agent { message } => if is_blank(message.as_str()) {
                Some("Agent message cannot be empty")
            } else {
                None
            },
        };
        match problem {
            Some(text) => Err(RouterError::Validation(String::from_str(text))),
            None => Ok(()),
        }
    }
}

impl Default for CommandRouter {
    fn default() -> (r: CommandRouter) {
        CommandRouter
    }
}

} // verus!
