//! A tool invocation, its result, and the structured errors of patching.

use crate::json::{json_equal, json_text_member, same_value, text_member};
use crate::text::{decimal, decimal_string};
use vstd::prelude::*;
use vstd::string::StringExecFns;

verus! {

/// One tool invocation: the tool's name and its arguments as a JSON value.
#[derive(Debug, Clone)]
pub struct ToolCall {
    pub name: String,
    pub arguments: serde_json::Value,
}

impl ToolCall {
    /// The text of the argument `key`, where the arguments are an object
    /// that holds a string under that key.
    pub open spec fn arg_text(&self, key: Seq<char>) -> Option<Seq<char>> {
        json_text_member(self.arguments, key)
    }

    /// Two calls name the same tool with equal arguments.
    pub open spec fn same_as(&self, other: &ToolCall) -> bool {
        self.name@ == other.name@ && (self.arguments == other.arguments || json_equal(
            self.arguments,
            other.arguments,
        ))
    }

    /// The string argument `key`, if the call has one.
    pub fn arg_str(&self, key: &str) -> (r: Option<String>)
        ensures
            match r {
                Some(s) => self.arg_text(key@) == Some(s@),
                None => self.arg_text(key@) is None,
            },
    {
        text_member(&self.arguments, key)
    }

    /// Tests whether two calls name the same tool with equal arguments.
    pub fn same(&self, other: &ToolCall) -> (r: bool)
        ensures
            r == self.same_as(other),
    {
        self.name == other.name && same_value(&self.arguments, &other.arguments)
    }

    /// A copy of the call.
    pub fn duplicate(&self) -> (r: ToolCall)
        ensures
            r == *self,
    {
        ToolCall { name: self.name.clone(), arguments: self.arguments.clone() }
    }
}

/// What a tool hands back: whether it succeeded, and the text that is fed
/// back to the model.
#[derive(Debug, Clone)]
pub struct ToolResult {
    pub success: bool,
    pub output: String,
}

impl ToolResult {
    /// A successful result.
    pub fn ok(output: String) -> (r: ToolResult)
        ensures
            r.success,
            r.output == output,
    {
        ToolResult { success: true, output }
    }

    /// A failed result.
    pub fn err(output: String) -> (r: ToolResult)
        ensures
            !r.success,
            r.output == output,
    {
        ToolResult { success: false, output }
    }

    /// A copy of the result.
    pub fn duplicate(&self) -> (r: ToolResult)
        ensures
            r == *self,
    {
        ToolResult { success: self.success, output: self.output.clone() }
    }
}

/// Why a patch was not applied. Each variant carries what the agent needs
/// to correct its next attempt.
#[derive(Debug, Clone)]
pub enum PatchError {
    /// The `before` block does not occur in the file.
    BeforeBlockNotFound { path: String, detail: String },
    /// The `before` block occurs more than once.
    AmbiguousPatch { path: String, count: u32 },
    /// There is no such file.
    FileNotFound { path: String },
    /// Reading or writing failed.
    IoError { path: String, detail: String },
}

impl PatchError {
    /// The message that `message_for_agent` renders.
    pub open spec fn message(&self) -> Seq<char> {
        match self {
            PatchError::BeforeBlockNotFound { path, detail } => "BeforeBlockNotFound: path="@
                + path@ + " detail="@ + detail@,
            PatchError::AmbiguousPatch { path, count } => "AmbiguousPatch: path="@ + path@
                + " before_occurrences="@ + decimal(*count as nat),
            PatchError::FileNotFound { path } => "FileNotFound: path="@ + path@,
            PatchError::IoError { path, detail } => "IOError: path="@ + path@ + " detail="@
                + detail@,
        }
    }

    /// Renders the error as the short text shown to the agent.
    pub fn message_for_agent(&self) -> (r: String)
        ensures
            r@ == self.message(),
    {
        match self {
            PatchError::BeforeBlockNotFound { path, detail } => {
                let mut s = String::from_str("BeforeBlockNotFound: path=");
                s.append(path.as_str());
                s.append(" detail=");
                s.append(detail.as_str());
                s
            },
            PatchError::AmbiguousPatch { path, count } => {
                let mut s = String::from_str("AmbiguousPatch: path=");
                s.append(path.as_str());
                s.append(" before_occurrences=");
                let digits = decimal_string(*count as u128);
                s.append(digits.as_str());
                s
            },
            PatchError::FileNotFound { path } => {
                let mut s = String::from_str("FileNotFound: path=");
                s.append(path.as_str());
                s
            },
            PatchError::IoError { path, detail } => {
                let mut s = String::from_str("IOError: path=");
                s.append(path.as_str());
                s.append(" detail=");
                s.append(detail.as_str());
                s
            },
        }
    }
}

} // verus!
