//! Failures to read an HTTP header.
use vstd::prelude::*;

use crate::cause::Cause;
use crate::error::{ErrorKind, ErrorType, ErrorValue};

verus! {

/// Text that is not a valid header name.
#[derive(Debug, PartialEq, Eq)]
pub struct InvalidHeaderName {
    source: Option<Cause>,
}

impl InvalidHeaderName {
    /// The message of this failure.
    pub open spec fn spec_message(&self) -> Seq<char> {
        "invalid HTTP header name"@
    }

    /// The cause of this failure.
    pub closed spec fn spec_source(&self) -> Option<Cause> {
        self.source
    }

    /// A failure with no underlying cause.
    pub fn new() -> (r: InvalidHeaderName)
        ensures
            r.spec_source() is None,
    {
        InvalidHeaderName { source: None }
    }

    /// A failure brought about by `cause`.
    pub fn caused_by(cause: Cause) -> (r: InvalidHeaderName)
        ensures
            r.spec_source() == Some(cause),
    {
        InvalidHeaderName { source: Some(cause) }
    }
}

impl ErrorValue for InvalidHeaderName {
    open spec fn type_tag() -> ErrorType {
        ErrorType::HeaderName
    }

    open spec fn into_kind_spec(self) -> ErrorKind {
        ErrorKind::HeaderName(self)
    }

    open spec fn narrow(k: ErrorKind) -> Option<Self> {
        match k {
            ErrorKind::HeaderName(e) => Some(e),
            _ => None,
        }
    }

    proof fn lemma_round_trip(v: Self) {
    }

    proof fn lemma_narrow(k: ErrorKind) {
    }

    fn tag() -> (r: ErrorType) {
        ErrorType::HeaderName
    }

    fn message(&self) -> (r: &'static str) {
        "invalid HTTP header name"
    }

    fn source(&self) -> (r: Option<&Cause>) {
        self.source.as_ref()
    }

    fn into_kind(self) -> (k: ErrorKind) {
        ErrorKind::HeaderName(self)
    }

    fn from_kind(k: ErrorKind) -> (r: Result<Self, ErrorKind>) {
        match k {
            ErrorKind::HeaderName(e) => Ok(e),
            other => Err(other),
        }
    }

    fn from_kind_ref(k: &ErrorKind) -> (r: Option<&Self>) {
        match k {
            ErrorKind::HeaderName(e) => Some(e),
            _ => None,
        }
    }
}

/// Bytes that are not a valid header value.
#[derive(Debug, PartialEq, Eq)]
pub struct InvalidHeaderValue {
    source: Option<Cause>,
}

impl InvalidHeaderValue {
    /// The message of this failure.
    pub open spec fn spec_message(&self) -> Seq<char> {
        "failed to parse header value"@
    }

    /// The cause of this failure.
    pub closed spec fn spec_source(&self) -> Option<Cause> {
        self.source
    }

    /// A failure with no underlying cause.
    pub fn new() -> (r: InvalidHeaderValue)
        ensures
            r.spec_source() is None,
    {
        InvalidHeaderValue { source: None }
    }

    /// A failure brought about by `cause`.
    pub fn caused_by(cause: Cause) -> (r: InvalidHeaderValue)
        ensures
            r.spec_source() == Some(cause),
    {
        InvalidHeaderValue { source: Some(cause) }
    }
}

impl ErrorValue for InvalidHeaderValue {
    open spec fn type_tag() -> ErrorType {
        ErrorType::HeaderValue
    }

    open spec fn into_kind_spec(self) -> ErrorKind {
        ErrorKind::HeaderValue(self)
    }

    open spec fn narrow(k: ErrorKind) -> Option<Self> {
        match k {
            ErrorKind::HeaderValue(e) => Some(e),
            _ => None,
        }
    }

    proof fn lemma_round_trip(v: Self) {
    }

    proof fn lemma_narrow(k: ErrorKind) {
    }

    fn tag() -> (r: ErrorType) {
        ErrorType::HeaderValue
    }

    fn message(&self) -> (r: &'static str) {
        "failed to parse header value"
    }

    fn source(&self) -> (r: Option<&Cause>) {
        self.source.as_ref()
    }

    fn into_kind(self) -> (k: ErrorKind) {
        ErrorKind::HeaderValue(self)
    }

    fn from_kind(k: ErrorKind) -> (r: Result<Self, ErrorKind>) {
        match k {
            ErrorKind::HeaderValue(e) => Ok(e),
            other => Err(other),
        }
    }

    fn from_kind_ref(k: &ErrorKind) -> (r: Option<&Self>) {
        match k {
            ErrorKind::HeaderValue(e) => Some(e),
            _ => None,
        }
    }
}

/// A header map that would grow past its largest size.
#[derive(Debug, PartialEq, Eq)]
pub struct MaxSizeReached {
    source: Option<Cause>,
}

impl MaxSizeReached {
    /// The message of this failure.
    pub open spec fn spec_message(&self) -> Seq<char> {
        "max size reached"@
    }

    /// The cause of this failure.
    pub closed spec fn spec_source(&self) -> Option<Cause> {
        self.source
    }

    /// A failure with no underlying cause.
    pub fn new() -> (r: MaxSizeReached)
        ensures
            r.spec_source() is None,
    {
        MaxSizeReached { source: None }
    }

    /// A failure brought about by `cause`.
    pub fn caused_by(cause: Cause) -> (r: MaxSizeReached)
        ensures
            r.spec_source() == Some(cause),
    {
        MaxSizeReached { source: Some(cause) }
    }
}

impl ErrorValue for MaxSizeReached {
    open spec fn type_tag() -> ErrorType {
        ErrorType::MaxSizeReached
    }

    open spec fn into_kind_spec(self) -> ErrorKind {
        ErrorKind::MaxSizeReached(self)
    }

    open spec fn narrow(k: ErrorKind) -> Option<Self> {
        match k {
            ErrorKind::MaxSizeReached(e) => Some(e),
            _ => None,
        }
    }

    proof fn lemma_round_trip(v: Self) {
    }

    proof fn lemma_narrow(k: ErrorKind) {
    }

    fn tag() -> (r: ErrorType) {
        ErrorType::MaxSizeReached
    }

    fn message(&self) -> (r: &'static str) {
        "max size reached"
    }

    fn source(&self) -> (r: Option<&Cause>) {
        self.source.as_ref()
    }

    fn into_kind(self) -> (k: ErrorKind) {
        ErrorKind::MaxSizeReached(self)
    }

    fn from_kind(k: ErrorKind) -> (r: Result<Self, ErrorKind>) {
        match k {
            ErrorKind::MaxSizeReached(e) => Ok(e),
            other => Err(other),
        }
    }

    fn from_kind_ref(k: &ErrorKind) -> (r: Option<&Self>) {
        match k {
            ErrorKind::MaxSizeReached(e) => Some(e),
            _ => None,
        }
    }
}

} // verus!
