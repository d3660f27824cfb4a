//! HTTP status codes, as far as the umbrella error needs them.
use vstd::prelude::*;

use crate::cause::Cause;
use crate::error::{ErrorKind, ErrorType, ErrorValue};

verus! {

/// The smallest valid status code.
pub const MIN_STATUS: u16 = 100;

/// One past the largest valid status code.
pub const STATUS_LIMIT: u16 = 1000;

/// Whether `code` lies in the range of valid status codes.
pub open spec fn valid_status(code: int) -> bool {
    MIN_STATUS <= code < STATUS_LIMIT
}

/// A status code in the range 100 to 999.
#[derive(Clone, Copy, Debug, PartialEq, Eq)]
pub struct StatusCode {
    code: u16,
}

impl StatusCode {
    /// The number of this status code.
    pub closed spec fn spec_code(self) -> u16 {
        self.code
    }

    #[verifier::type_invariant]
    spec fn well_formed(self) -> bool {
        valid_status(self.code as int)
    }

    /// Builds a status code from its number; numbers outside 100 to 999 are
    /// refused.
    pub fn from_u16(src: u16) -> (r: Result<StatusCode, InvalidStatusCode>)
        ensures
            r is Ok <==> valid_status(src as int),
            r matches Ok(s) ==> s.spec_code() == src,
            r matches Err(e) ==> e.spec_source() is None,
    {
        if src < MIN_STATUS || src >= STATUS_LIMIT {
            Err(InvalidStatusCode::new())
        } else {
            Ok(StatusCode { code: src })
        }
    }

    /// The number of this status code.
    pub fn as_u16(&self) -> (r: u16)
        ensures
            r == self.spec_code(),
            valid_status(r as int),
    {
        proof {
            use_type_invariant(self);
        }
        self.code
    }
}

/// A number that is not a valid status code.
#[derive(Debug, PartialEq, Eq)]
pub struct InvalidStatusCode {
    source: Option<Cause>,
}

impl InvalidStatusCode {
    /// The message of this failure.
    pub open spec fn spec_message(&self) -> Seq<char> {
        "invalid status code"@
    }

    /// The cause of this failure.
    pub closed spec fn spec_source(&self) -> Option<Cause> {
        self.source
    }

    /// A failure with no underlying cause.
    pub fn new() -> (r: InvalidStatusCode)
        ensures
            r.spec_source() is None,
    {
        InvalidStatusCode { source: None }
    }

    /// A failure brought about by `cause`.
    pub fn caused_by(cause: Cause) -> (r: InvalidStatusCode)
        ensures
            r.spec_source() == Some(cause),
    {
        InvalidStatusCode { source: Some(cause) }
    }
}

impl ErrorValue for InvalidStatusCode {
    open spec fn type_tag() -> ErrorType {
        ErrorType::StatusCode
    }

    open spec fn into_kind_spec(self) -> ErrorKind {
        ErrorKind::StatusCode(self)
    }

    open spec fn narrow(k: ErrorKind) -> Option<Self> {
        match k {
            ErrorKind::StatusCode(e) => Some(e),
            _ => None,
        }
    }

    proof fn lemma_round_trip(v: Self) {
    }

    proof fn lemma_narrow(k: ErrorKind) {
    }

    fn tag() -> (r: ErrorType) {
        ErrorType::StatusCode
    }

    fn message(&self) -> (r: &'static str) {
        "invalid status code"
    }

    fn source(&self) -> (r: Option<&Cause>) {
        self.source.as_ref()
    }

    fn into_kind(self) -> (k: ErrorKind) {
        ErrorKind::StatusCode(self)
    }

    fn from_kind(k: ErrorKind) -> (r: Result<Self, ErrorKind>) {
        match k {
            ErrorKind::StatusCode(e) => Ok(e),
            other => Err(other),
        }
    }

    fn from_kind_ref(k: &ErrorKind) -> (r: Option<&Self>) {
        match k {
            ErrorKind::StatusCode(e) => Some(e),
            _ => None,
        }
    }
}

} // verus!
