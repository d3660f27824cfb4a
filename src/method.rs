//! Failures to read an HTTP method.
use vstd::prelude::*;

use crate::cause::Cause;
use crate::error::{ErrorKind, ErrorType, ErrorValue};

verus! {

/// A method name that is not a valid HTTP method.
#[derive(Debug, PartialEq, Eq)]
pub struct InvalidMethod {
    source: Option<Cause>,
}

impl InvalidMethod {
    /// The message of this failure.
    pub open spec fn spec_message(&self) -> Seq<char> {
        "invalid HTTP method"@
    }

    /// The cause of this failure.
    pub closed spec fn spec_source(&self) -> Option<Cause> {
        self.source
    }

    /// A failure with no underlying cause.
    pub fn new() -> (r: InvalidMethod)
        ensures
            r.spec_source() is None,
    {
        InvalidMethod { source: None }
    }

    /// A failure brought about by `cause`.
    pub fn caused_by(cause: Cause) -> (r: InvalidMethod)
        ensures
            r.spec_source() == Some(cause),
    {
        InvalidMethod { source: Some(cause) }
    }
}

impl ErrorValue for InvalidMethod {
    open spec fn type_tag() -> ErrorType {
        ErrorType::Method
    }

    open spec fn into_kind_spec(self) -> ErrorKind {
        ErrorKind::Method(self)
    }

    open spec fn narrow(k: ErrorKind) -> Option<Self> {
        match k {
            ErrorKind::Method(e) => Some(e),
            _ => None,
        }
    }

    proof fn lemma_round_trip(v: Self) {
    }

    proof fn lemma_narrow(k: ErrorKind) {
    }

    fn tag() -> (r: ErrorType) {
        ErrorType::Method
    }

    fn message(&self) -> (r: &'static str) {
        "invalid HTTP method"
    }

    fn source(&self) -> (r: Option<&Cause>) {
        self.source.as_ref()
    }

    fn into_kind(self) -> (k: ErrorKind) {
        ErrorKind::Method(self)
    }

    fn from_kind(k: ErrorKind) -> (r: Result<Self, ErrorKind>) {
        match k {
            ErrorKind::Method(e) => Ok(e),
            other => Err(other),
        }
    }

    fn from_kind_ref(k: &ErrorKind) -> (r: Option<&Self>) {
        match k {
            ErrorKind::Method(e) => Some(e),
            _ => None,
        }
    }
}

} // verus!
