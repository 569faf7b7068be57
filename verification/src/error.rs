//! The ways in which building a policy can fail.

use vstd::prelude::*;
use vstd::string::StringExecFns;

verus! {

/// Why a policy could not be built. Each variant carries the raw value that
/// was refused.
#[derive(Debug, Clone, PartialEq, Eq)]
pub enum PolicyError {
    /// An origin pattern that the pattern engine refuses, with the engine's
    /// own words.
    InvalidPattern { source: String, reason: String },
    /// A token that is no header name.
    InvalidHeaderName { token: String },
    /// A token that is none of the nine methods.
    InvalidMethod { token: String },
    /// A max-age text that is no duration, with the parser's own words.
    InvalidDuration { text: String, reason: String },
}

/// A `PolicyError` as a mathematical value.
pub enum Fault {
    Pattern { source: Seq<char>, reason: Seq<char> },
    HeaderName { token: Seq<char> },
    Method { token: Seq<char> },
    Duration { text: Seq<char>, reason: Seq<char> },
}

impl Fault {
    /// The sentence that describes the fault.
    pub open spec fn message(self) -> Seq<char> {
        match self {
            Fault::Pattern { source, reason } => "invalid origin pattern "@ + source + ": "@
                + reason,
            Fault::HeaderName { token } => "invalid header name "@ + token,
            Fault::Method { token } => "invalid method "@ + token,
            Fault::Duration { text, reason } => "invalid duration "@ + text + ": "@ + reason,
        }
    }
}

impl View for PolicyError {
    type V = Fault;

    open spec fn view(&self) -> Fault {
        match self {
            PolicyError::InvalidPattern { source, reason } => Fault::Pattern {
                source: source@,
                reason: reason@,
            },
            PolicyError::InvalidHeaderName { token } => Fault::HeaderName { token: token@ },
            PolicyError::InvalidMethod { token } => Fault::Method { token: token@ },
            PolicyError::InvalidDuration { text, reason } => Fault::Duration {
                text: text@,
                reason: reason@,
            },
        }
    }
}

impl PolicyError {
    /// The error as one sentence for the operator.
    pub fn message(&self) -> (text: String)
        ensures
            text@ == self@.message(),
    {
        match self {
            PolicyError::InvalidPattern { source, reason } => String::from_str(
                "invalid origin pattern ",
            ).concat(source.as_str()).concat(": ").concat(reason.as_str()),
            PolicyError::InvalidHeaderName { token } => String::from_str(
                "invalid header name ",
            ).concat(token.as_str()),
            PolicyError::InvalidMethod { token } => String::from_str("invalid method ").concat(
                token.as_str(),
            ),
            PolicyError::InvalidDuration { text, reason } => String::from_str(
                "invalid duration ",
            ).concat(text.as_str()).concat(": ").concat(reason.as_str()),
        }
    }
}

} // verus!
