//! The failures that a handler reports to its caller as data.

use vstd::prelude::*;
use vstd::std_specs::cmp::PartialEqSpecImpl;
use vstd::string::StringExecFns;
use crate::json::{json_object, json_string, object_value, string_value};

verus! {

/// The rendering of a string that the `{:?}` format of `str` gives: the string
/// between double quotes, with the characters that need it escaped.
pub uninterp spec fn debug_quoted(text: Seq<char>) -> Seq<char>;

/// Formats a string slice with `{:?}`, the `Debug` format of `str`.
///
/// Claims that the rendering depends on the characters alone.
#[verifier::external_body]
fn quoted(text: &str) -> (rendering: String)
    ensures
        rendering@ == debug_quoted(text@),
{
    format!("{:?}", text)
}

/// A failure of the business of a call. It travels to the caller as an
/// ordinary value, through the same channel as a result.
#[derive(Clone, Debug)]
pub enum RibosomeError {
    /// The operation failed for the reason given.
    RibosomeFailed(String),
    /// The function is declared but has no implementation.
    FunctionNotImplemented,
    /// No entry has the hash that was asked for.
    HashNotFound,
}

impl RibosomeError {
    /// What the failure says of itself.
    pub open spec fn description_spec(self) -> Seq<char> {
        match self {
            RibosomeError::RibosomeFailed(reason) => reason@,
            RibosomeError::FunctionNotImplemented => "Function not implemented"@,
            RibosomeError::HashNotFound => "Hash not found"@,
        }
    }

    /// How the failure is written out: the name of its case and, for a failed
    /// operation, the reason in quotes between brackets.
    pub open spec fn display_spec(self) -> Seq<char> {
        match self {
            RibosomeError::RibosomeFailed(reason) => "RibosomeFailed("@ + debug_quoted(reason@)
                + ")"@,
            RibosomeError::FunctionNotImplemented => "FunctionNotImplemented"@,
            RibosomeError::HashNotFound => "HashNotFound"@,
        }
    }

    /// Whether the failure is a failed operation whose reason is `reason`.
    pub open spec fn failed_with(self, reason: Seq<char>) -> bool {
        match self {
            RibosomeError::RibosomeFailed(own) => own@ == reason,
            _ => false,
        }
    }

    /// Whether two failures are the same case, with the same reason.
    pub open spec fn same_as(self, other: RibosomeError) -> bool {
        match (self, other) {
            (RibosomeError::RibosomeFailed(own), RibosomeError::RibosomeFailed(theirs)) => own@
                == theirs@,
            (RibosomeError::FunctionNotImplemented, RibosomeError::FunctionNotImplemented) => true,
            (RibosomeError::HashNotFound, RibosomeError::HashNotFound) => true,
            _ => false,
        }
    }

    /// Returns the failure of an operation that failed for the reason `msg`.
    pub fn new(msg: &str) -> (failure: RibosomeError)
        ensures
            failure.failed_with(msg@),
    {
        RibosomeError::RibosomeFailed(msg.to_owned())
    }

    /// Returns what the failure says of itself.
    pub fn description(&self) -> (text: &str)
        ensures
            text@ == self.description_spec(),
    {
        match self {
            RibosomeError::RibosomeFailed(reason) => reason.as_str(),
            RibosomeError::FunctionNotImplemented => "Function not implemented",
            RibosomeError::HashNotFound => "Hash not found",
        }
    }

    /// Returns the failure written out.
    pub fn to_string(&self) -> (text: String)
        ensures
            text@ == self.display_spec(),
    {
        match self {
            RibosomeError::RibosomeFailed(reason) => {
                let inner = quoted(reason.as_str());
                "RibosomeFailed(".to_owned().concat(inner.as_str()).concat(")")
            },
            RibosomeError::FunctionNotImplemented => "FunctionNotImplemented".to_owned(),
            RibosomeError::HashNotFound => "HashNotFound".to_owned(),
        }
    }

    /// Returns the failure as the value that a caller receives: an object
    /// that holds the description under `error`.
    pub fn to_json(&self) -> (value: serde_json::Value)
        ensures
            value == json_object("error"@, json_string(self.description_spec())),
    {
        object_value("error", string_value(self.description()))
    }
}

impl PartialEq for RibosomeError {
    fn eq(&self, other: &RibosomeError) -> (same: bool) {
        match (self, other) {
            (RibosomeError::RibosomeFailed(own), RibosomeError::RibosomeFailed(theirs)) => *own
                == *theirs,
            (RibosomeError::FunctionNotImplemented, RibosomeError::FunctionNotImplemented) => true,
            (RibosomeError::HashNotFound, RibosomeError::HashNotFound) => true,
            _ => false,
        }
    }
}

impl PartialEqSpecImpl for RibosomeError {
    open spec fn obeys_eq_spec() -> bool {
        true
    }

    open spec fn eq_spec(&self, other: &RibosomeError) -> bool {
        self.same_as(*other)
    }
}

impl PartialEq<String> for RibosomeError {
    fn eq(&self, failure_msg: &String) -> (same: bool) {
        match self {
            RibosomeError::RibosomeFailed(msg) => *msg == *failure_msg,
            _ => false,
        }
    }
}

impl PartialEqSpecImpl<String> for RibosomeError {
    open spec fn obeys_eq_spec() -> bool {
        true
    }

    open spec fn eq_spec(&self, failure_msg: &String) -> bool {
        self.failed_with(failure_msg@)
    }
}

} // verus!
