//! The cloud provider: its model, its errors, and when a request is tried again.

use crate::text::{chars_of, contains, contains_sub};
use vstd::prelude::*;
use vstd::string::StringExecFns;

verus! {

/// The models of the cloud provider.
#[derive(Debug, Clone, Copy, PartialEq, Eq, Structural)]
pub enum GigaChatModel {
    GigaChatUltra,
}

impl GigaChatModel {
    pub fn as_str(&self) -> (r: &'static str)
        ensures
            r@ == "GigaChat-Ultra"@,
    {
        match self {
            GigaChatModel::GigaChatUltra => "GigaChat-Ultra",
        }
    }
}

/// Why the cloud provider could not answer.
#[derive(Debug, Clone)]
pub enum GigaChatError {
    OAuth(String),
    Http(String),
    Api(String),
    InvalidCredentials,
    Timeout,
}

impl GigaChatError {
    /// The text that `message` renders.
    pub open spec fn message_text(&self) -> Seq<char> {
        match self {
            GigaChatError::OAuth(d) => "OAuth failed: "@ + d@,
            GigaChatError::Http(d) => "HTTP request failed: "@ + d@,
            GigaChatError::Api(d) => "API error: "@ + d@,
            GigaChatError::InvalidCredentials => "Invalid credentials"@,
            GigaChatError::Timeout => "Timeout"@,
        }
    }

    /// The error as text.
    pub fn message(&self) -> (r: String)
        ensures
            r@ == self.message_text(),
    {
        match self {
            GigaChatError::OAuth(d) => {
                let mut s = String::from_str("OAuth failed: ");
                s.append(d.as_str());
                s
            },
            GigaChatError::Http(d) => {
                let mut s = String::from_str("HTTP request failed: ");
                s.append(d.as_str());
                s
            },
            GigaChatError::Api(d) => {
                let mut s = String::from_str("API error: ");
                s.append(d.as_str());
                s
            },
            GigaChatError::InvalidCredentials => String::from_str("Invalid credentials"),
            GigaChatError::Timeout => String::from_str("Timeout"),
        }
    }

    /// A request that failed this way may be tried again: the transport
    /// failed, or the server answered 500, 502 or 503.
    pub open spec fn retryable(&self) -> bool {
        match self {
            GigaChatError::Http(_) => true,
            GigaChatError::Api(d) => contains_sub(d@, "500"@) || contains_sub(d@, "502"@)
                || contains_sub(d@, "503"@),
            _ => false,
        }
    }

    /// Tests whether a request that failed this way may be tried again.
    pub fn is_retryable(&self) -> (r: bool)
        ensures
            r == self.retryable(),
    {
        match self {
            GigaChatError::Http(_) => true,
            GigaChatError::Api(d) => {
                let text = chars_of(d.as_str());
                contains(&text, &chars_of("500")) || contains(&text, &chars_of("502")) || contains(
                    &text,
                    &chars_of("503"),
                )
            },
            _ => false,
        }
    }
}

/// How often a request is sent at most.
pub const MAX_RETRIES: u32 = 3;

/// What follows a failed attempt, the attempts counted from zero: the
/// time to wait before the next one, in milliseconds, or `None` where the
/// failure is final.
pub fn retry_delay_ms(error: &GigaChatError, attempt: u32) -> (r: Option<u64>)
    ensures
        r == if error.retryable() && attempt < MAX_RETRIES - 1 {
            Some((500 * (attempt + 1)) as u64)
        } else {
            None
        },
{
    if error.is_retryable() && attempt < MAX_RETRIES - 1 {
        Some(500 * (attempt as u64 + 1))
    } else {
        None
    }
}

/// A token can still be used where it expires more than a minute from now.
pub fn token_is_fresh(expires_at: i64, now: i64) -> (r: bool)
    ensures
        r == (expires_at > now + 60),
{
    if now > i64::MAX - 60 {
        false
    } else {
        expires_at > now + 60
    }
}

} // verus!
