//! Extraction of one tool call from the free text of a model's response.
//!
//! A call is announced by a fenced block that opens with the marker
//! `` ```tool_call ``. With a closing fence, the block's content is the call.
//! Without one, the call is the shortest text that starts at the first `{`,
//! ends at a `}` and denotes a call.

use crate::json::{
    json_member, json_parsed, json_text_member, member, parse_value, text_member,
};
use crate::text::{
    chars_of, find, first_match, slice_chars, string_of, trim_chars, trim_start_chars,
    trim_start_of, trimmed,
};
use crate::tools::types::ToolCall;
use vstd::prelude::*;

verus! {

/// The marker that opens a tool-call block.
pub open spec fn marker() -> Seq<char> {
    "```tool_call"@
}

/// The fence that closes a tool-call block.
pub open spec fn fence() -> Seq<char> {
    "```"@
}

/// The name and the arguments of the call that a JSON value denotes: an
/// object with a string member `name` and a member `arguments`.
pub open spec fn call_of_value(v: serde_json::Value) -> Option<(Seq<char>, serde_json::Value)> {
    match (json_text_member(v, "name"@), json_member(v, "arguments"@)) {
        (Some(name), Some(arguments)) => Some((name, arguments)),
        _ => None,
    }
}

/// The call that a text denotes as a JSON document.
pub open spec fn call_of_text(text: Seq<char>) -> Option<(Seq<char>, serde_json::Value)> {
    match json_parsed(text) {
        Some(v) => call_of_value(v),
        None => None,
    }
}

/// `call` is the call with the given name and arguments, or both are absent.
pub open spec fn denotes(call: Option<ToolCall>, model: Option<(Seq<char>, serde_json::Value)>) -> bool {
    match (call, model) {
        (Some(c), Some((name, arguments))) => c.name@ == name && c.arguments == arguments,
        (None, None) => true,
        _ => false,
    }
}

/// The call denoted by the shortest text `s[start..=i']`, `i' >= i`, that
/// ends in `}` and denotes one.
pub open spec fn scan_braces(s: Seq<char>, start: int, i: int) -> Option<
    (Seq<char>, serde_json::Value),
>
    decreases s.len() - i,
{
    if i < start || start < 0 || i >= s.len() {
        None
    } else if s[i] == '}' && call_of_text(s.subrange(start, i + 1)) is Some {
        call_of_text(s.subrange(start, i + 1))
    } else {
        scan_braces(s, start, i + 1)
    }
}

/// The call found by scanning from the first `{` of `s`.
pub open spec fn first_object_call(s: Seq<char>) -> Option<(Seq<char>, serde_json::Value)> {
    match first_match(s, seq!['{'], 0) {
        Some(open) => scan_braces(s, open, open),
        None => None,
    }
}

/// The call that a response holds: none without the marker; with it, the
/// content up to the closing fence, or the first object after the marker
/// where no fence closes the block.
pub open spec fn parsed_call(response: Seq<char>) -> Option<(Seq<char>, serde_json::Value)> {
    match first_match(response, marker(), 0) {
        None => None,
        Some(at) => {
            let rest = trim_start_of(
                response.subrange(at + marker().len(), response.len() as int),
            );
            match first_match(rest, fence(), 0) {
                Some(end) => call_of_text(trimmed(rest.subrange(0, end))),
                None => first_object_call(rest),
            }
        },
    }
}

/// Reads a tool call from a JSON value: an object with a string `name` and
/// with `arguments`. Any other value is no call.
pub fn tool_call_of_value(v: &serde_json::Value) -> (r: Option<ToolCall>)
    ensures
        denotes(r, call_of_value(*v)),
{
    let name = match text_member(v, "name") {
        Some(n) => n,
        None => {
            return None;
        },
    };
    match member(v, "arguments") {
        Some(a) => Some(ToolCall { name, arguments: a.clone() }),
        None => None,
    }
}

/// Reads a tool call from JSON text.
pub fn tool_call_of_text(text: &str) -> (r: Option<ToolCall>)
    ensures
        denotes(r, call_of_text(text@)),
{
    match parse_value(text) {
        Some(v) => tool_call_of_value(&v),
        None => None,
    }
}

/// Scans `s` from its first `{`: each `}` closes a candidate, and the first
/// candidate that denotes a call is the result.
pub fn extract_json_object(s: &Vec<char>) -> (r: Option<ToolCall>)
    ensures
        denotes(r, first_object_call(s@)),
{
    let mut brace: Vec<char> = Vec::new();
    brace.push('{');
    assert(brace@ =~= seq!['{']);
    let open = match find(s, &brace) {
        Some(p) => p,
        None => {
            return None;
        },
    };
    let mut i: usize = open;
    while i < s.len()
        invariant
            open <= i <= s.len(),
            first_match(s@, seq!['{'], 0) == Some(open as int),
            scan_braces(s@, open as int, open as int) == scan_braces(s@, open as int, i as int),
        decreases s.len() - i,
    {
        if s[i] == '}' {
            let candidate = string_of(&slice_chars(s, open, i + 1));
            let call = tool_call_of_text(candidate.as_str());
            if call.is_some() {
                return call;
            }
        }
        i += 1;
    }
    None
}

/// Extracts the first tool call from a model's response. The result is
/// `None` where the response holds no valid call.
pub fn parse_tool_call(response: &str) -> (r: Option<ToolCall>)
    ensures
        denotes(r, parsed_call(response@)),
{
    let text = chars_of(response);
    let mark = chars_of("```tool_call");
    let close = chars_of("```");
    let at = match find(&text, &mark) {
        Some(p) => p,
        None => {
            return None;
        },
    };
    let rest = trim_start_chars(&slice_chars(&text, at + mark.len(), text.len()));
    match find(&rest, &close) {
        Some(end) => {
            let body = string_of(&trim_chars(&slice_chars(&rest, 0, end)));
            tool_call_of_text(body.as_str())
        },
        None => extract_json_object(&rest),
    }
}

} // verus!
