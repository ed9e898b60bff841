//! The errors that a run hands to its caller.

use crate::context::ContextError;
use crate::providers::ProviderError;
use vstd::prelude::*;
use vstd::string::StringExecFns;

verus! {

/// Why a run could not be carried out.
#[derive(Debug)]
pub enum AiRuntimeError {
    NoProvider,
    Provider(ProviderError),
    Context(ContextError),
    PromptBuild(String),
    PostProcess(String),
}

impl AiRuntimeError {
    /// The text that `message` renders.
    pub open spec fn message_text(&self) -> Seq<char> {
        match self {
            AiRuntimeError::NoProvider => "no provider available for this mode"@,
            AiRuntimeError::Provider(e) => "provider error: "@ + e.message_text(),
            AiRuntimeError::Context(e) => "context error: "@ + e.message_text(),
            AiRuntimeError::PromptBuild(detail) => "prompt build failed: "@ + detail@,
            AiRuntimeError::PostProcess(detail) => "response post-processing failed: "@ + detail@,
        }
    }

    /// The error as text.
    pub fn message(&self) -> (r: String)
        ensures
            r@ == self.message_text(),
    {
        match self {
            AiRuntimeError::NoProvider => String::from_str("no provider available for this mode"),
            AiRuntimeError::Provider(e) => {
                let mut s = String::from_str("provider error: ");
                let inner = e.message();
                s.append(inner.as_str());
                s
            },
            AiRuntimeError::Context(e) => {
                let mut s = String::from_str("context error: ");
                let inner = e.message();
                s.append(inner.as_str());
                s
            },
            AiRuntimeError::PromptBuild(detail) => {
                let mut s = String::from_str("prompt build failed: ");
                s.append(detail.as_str());
                s
            },
            AiRuntimeError::PostProcess(detail) => {
                let mut s = String::from_str("response post-processing failed: ");
                s.append(detail.as_str());
                s
            },
        }
    }
}

} // verus!
