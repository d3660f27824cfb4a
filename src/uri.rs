//! Failures to read a URI.
use vstd::prelude::*;

use crate::cause::Cause;
use crate::error::{ErrorKind, ErrorType, ErrorValue};

verus! {

/// Text that is not a valid URI.
#[derive(Debug, PartialEq, Eq)]
pub struct InvalidUri {
    source: Option<Cause>,
}

impl InvalidUri {
    /// The message of this failure.
    pub open spec fn spec_message(&self) -> Seq<char> {
        "invalid uri"@
    }

    /// The cause of this failure.
    pub closed spec fn spec_source(&self) -> Option<Cause> {
        self.source
    }

    /// A failure with no underlying cause.
    pub fn new() -> (r: InvalidUri)
        ensures
            r.spec_source() is None,
    {
        InvalidUri { source: None }
    }

    /// A failure brought about by `cause`.
    pub fn caused_by(cause: Cause) -> (r: InvalidUri)
        ensures
            r.spec_source() == Some(cause),
    {
        InvalidUri { source: Some(cause) }
    }
}

impl ErrorValue for InvalidUri {
    open spec fn type_tag() -> ErrorType {
        ErrorType::Uri
    }

    open spec fn into_kind_spec(self) -> ErrorKind {
        ErrorKind::Uri(self)
    }

    open spec fn narrow(k: ErrorKind) -> Option<Self> {
        match k {
            ErrorKind::Uri(e) => Some(e),
            _ => None,
        }
    }

    proof fn lemma_round_trip(v: Self) {
    }

    proof fn lemma_narrow(k: ErrorKind) {
    }

    fn tag() -> (r: ErrorType) {
        ErrorType::Uri
    }

    fn message(&self) -> (r: &'static str) {
        "invalid uri"
    }

    fn source(&self) -> (r: Option<&Cause>) {
        self.source.as_ref()
    }

    fn into_kind(self) -> (k: ErrorKind) {
        ErrorKind::Uri(self)
    }

    fn from_kind(k: ErrorKind) -> (r: Result<Self, ErrorKind>) {
        match k {
            ErrorKind::Uri(e) => Ok(e),
            other => Err(other),
        }
    }

    fn from_kind_ref(k: &ErrorKind) -> (r: Option<&Self>) {
        match k {
            ErrorKind::Uri(e) => Some(e),
            _ => None,
        }
    }
}

/// URI parts that do not make up a valid URI.
#[derive(Debug, PartialEq, Eq)]
pub struct InvalidUriParts {
    source: Option<Cause>,
}

impl InvalidUriParts {
    /// The message of this failure.
    pub open spec fn spec_message(&self) -> Seq<char> {
        "invalid uri parts"@
    }

    /// The cause of this failure.
    pub closed spec fn spec_source(&self) -> Option<Cause> {
        self.source
    }

    /// A failure with no underlying cause.
    pub fn new() -> (r: InvalidUriParts)
        ensures
            r.spec_source() is None,
    {
        InvalidUriParts { source: None }
    }

    /// A failure brought about by `cause`.
    pub fn caused_by(cause: Cause) -> (r: InvalidUriParts)
        ensures
            r.spec_source() == Some(cause),
    {
        InvalidUriParts { source: Some(cause) }
    }
}

impl ErrorValue for InvalidUriParts {
    open spec fn type_tag() -> ErrorType {
        ErrorType::UriParts
    }

    open spec fn into_kind_spec(self) -> ErrorKind {
        ErrorKind::UriParts(self)
    }

    open spec fn narrow(k: ErrorKind) -> Option<Self> {
        match k {
            ErrorKind::UriParts(e) => Some(e),
            _ => None,
        }
    }

    proof fn lemma_round_trip(v: Self) {
    }

    proof fn lemma_narrow(k: ErrorKind) {
    }

    fn tag() -> (r: ErrorType) {
        ErrorType::UriParts
    }

    fn message(&self) -> (r: &'static str) {
        "invalid uri parts"
    }

    fn source(&self) -> (r: Option<&Cause>) {
        self.source.as_ref()
    }

    fn into_kind(self) -> (k: ErrorKind) {
        ErrorKind::UriParts(self)
    }

    fn from_kind(k: ErrorKind) -> (r: Result<Self, ErrorKind>) {
        match k {
            ErrorKind::UriParts(e) => Ok(e),
            other => Err(other),
        }
    }

    fn from_kind_ref(k: &ErrorKind) -> (r: Option<&Self>) {
        match k {
            ErrorKind::UriParts(e) => Some(e),
            _ => None,
        }
    }
}

} // verus!
