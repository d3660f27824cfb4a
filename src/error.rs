//! The umbrella error: one value that holds exactly one failure of the
//! library, shows it as it is, and hands it back to a caller that asks for
//! its exact type.
use vstd::prelude::*;

use crate::cause::Cause;
use crate::header::{InvalidHeaderName, InvalidHeaderValue, MaxSizeReached};
use crate::method::InvalidMethod;
use crate::status::InvalidStatusCode;
use crate::uri::{InvalidUri, InvalidUriParts};

verus! {

/// The identity of each failure type that an [`Error`] can hold.
#[derive(Clone, Copy, Debug, PartialEq, Eq, Structural)]
pub enum ErrorType {
    StatusCode,
    Method,
    Uri,
    UriParts,
    HeaderName,
    HeaderValue,
    MaxSizeReached,
}

/// A failure type that an [`Error`] can hold.
///
/// Each such type has its own identity (`type_tag`) and its own arm of
/// [`ErrorKind`], which shows the value's message and cause.
pub trait ErrorValue: Sized {
    /// The identity of this type.
    spec fn type_tag() -> ErrorType;

    /// The arm of [`ErrorKind`] that holds this value.
    spec fn into_kind_spec(self) -> ErrorKind;

    /// The value of this type that `k` holds, if `k` holds one.
    spec fn narrow(k: ErrorKind) -> Option<Self>;

    /// Putting a value into its arm and taking it out again gives it back,
    /// and the arm shows the value's identity.
    proof fn lemma_round_trip(v: Self)
        ensures
            v.into_kind_spec().tag() == Self::type_tag(),
            Self::narrow(v.into_kind_spec()) == Some(v),
    ;

    /// A kind holds a value of this type exactly when its identity is this
    /// type's, and then it is that value's arm.
    proof fn lemma_narrow(k: ErrorKind)
        ensures
            Self::narrow(k) is Some <==> k.tag() == Self::type_tag(),
            Self::narrow(k) matches Some(v) ==> v.into_kind_spec() == k,
    ;

    /// The identity of this type.
    fn tag() -> (r: ErrorType)
        ensures
            r == Self::type_tag(),
    ;

    /// The message of this value.
    fn message(&self) -> (r: &'static str)
        ensures
            r@ == self.into_kind_spec().spec_message(),
    ;

    /// The cause of this value, if it has one.
    fn source(&self) -> (r: Option<&Cause>)
        ensures
            r is Some <==> self.into_kind_spec().spec_source() is Some,
            r is Some ==> *r->0 == self.into_kind_spec().spec_source()->0,
    ;

    /// Puts this value into its arm.
    fn into_kind(self) -> (k: ErrorKind)
        ensures
            k == self.into_kind_spec(),
    ;

    /// Takes a value of this type out of `k`, or gives `k` back unchanged.
    fn from_kind(k: ErrorKind) -> (r: core::result::Result<Self, ErrorKind>)
        ensures
            r == (match Self::narrow(k) {
                Some(v) => Ok(v),
                None => Err(k),
            }),
    ;

    /// A reference to the value of this type that `k` holds, if any.
    fn from_kind_ref(k: &ErrorKind) -> (r: Option<&Self>)
        ensures
            r is Some <==> Self::narrow(*k) is Some,
            r is Some ==> *r->0 == Self::narrow(*k)->0,
    ;
}

/// Exactly one failure, of one of the library's failure types.
#[derive(Debug, PartialEq, Eq)]
pub enum ErrorKind {
    StatusCode(InvalidStatusCode),
    Method(InvalidMethod),
    Uri(InvalidUri),
    UriParts(InvalidUriParts),
    HeaderName(InvalidHeaderName),
    HeaderValue(InvalidHeaderValue),
    MaxSizeReached(MaxSizeReached),
}

impl ErrorKind {
    /// The identity of the type of the failure held.
    pub open spec fn tag(self) -> ErrorType {
        match self {
            ErrorKind::StatusCode(_) => ErrorType::StatusCode,
            ErrorKind::Method(_) => ErrorType::Method,
            ErrorKind::Uri(_) => ErrorType::Uri,
            ErrorKind::UriParts(_) => ErrorType::UriParts,
            ErrorKind::HeaderName(_) => ErrorType::HeaderName,
            ErrorKind::HeaderValue(_) => ErrorType::HeaderValue,
            ErrorKind::MaxSizeReached(_) => ErrorType::MaxSizeReached,
        }
    }

    /// The message of the failure held.
    pub open spec fn spec_message(self) -> Seq<char> {
        match self {
            ErrorKind::StatusCode(e) => e.spec_message(),
            ErrorKind::Method(e) => e.spec_message(),
            ErrorKind::Uri(e) => e.spec_message(),
            ErrorKind::UriParts(e) => e.spec_message(),
            ErrorKind::HeaderName(e) => e.spec_message(),
            ErrorKind::HeaderValue(e) => e.spec_message(),
            ErrorKind::MaxSizeReached(e) => e.spec_message(),
        }
    }

    /// The cause of the failure held.
    pub open spec fn spec_source(self) -> Option<Cause> {
        match self {
            ErrorKind::StatusCode(e) => e.spec_source(),
            ErrorKind::Method(e) => e.spec_source(),
            ErrorKind::Uri(e) => e.spec_source(),
            ErrorKind::UriParts(e) => e.spec_source(),
            ErrorKind::HeaderName(e) => e.spec_source(),
            ErrorKind::HeaderValue(e) => e.spec_source(),
            ErrorKind::MaxSizeReached(e) => e.spec_source(),
        }
    }

    /// The identity of the type of the failure held.
    pub fn type_of(&self) -> (r: ErrorType)
        ensures
            r == self.tag(),
    {
        match self {
            ErrorKind::StatusCode(_) => ErrorType::StatusCode,
            ErrorKind::Method(_) => ErrorType::Method,
            ErrorKind::Uri(_) => ErrorType::Uri,
            ErrorKind::UriParts(_) => ErrorType::UriParts,
            ErrorKind::HeaderName(_) => ErrorType::HeaderName,
            ErrorKind::HeaderValue(_) => ErrorType::HeaderValue,
            ErrorKind::MaxSizeReached(_) => ErrorType::MaxSizeReached,
        }
    }

    /// Whether the failure held is of type `T`.
    pub fn is<T: ErrorValue>(&self) -> (r: bool)
        ensures
            r == (self.tag() == T::type_tag()),
    {
        self.type_of() == T::tag()
    }

    /// The failure held, if it is of type `T`.
    pub fn downcast_ref<T: ErrorValue>(&self) -> (r: Option<&T>)
        ensures
            r is Some <==> self.tag() == T::type_tag(),
            r is Some ==> *r->0 == T::narrow(*self)->0,
    {
        proof {
            T::lemma_narrow(*self);
        }
        T::from_kind_ref(self)
    }

    /// The message of the failure held.
    pub fn message(&self) -> (r: &'static str)
        ensures
            r@ == self.spec_message(),
    {
        match self {
            ErrorKind::StatusCode(e) => e.message(),
            ErrorKind::Method(e) => e.message(),
            ErrorKind::Uri(e) => e.message(),
            ErrorKind::UriParts(e) => e.message(),
            ErrorKind::HeaderName(e) => e.message(),
            ErrorKind::HeaderValue(e) => e.message(),
            ErrorKind::MaxSizeReached(e) => e.message(),
        }
    }

    /// The cause of the failure held, if it has one.
    pub fn source(&self) -> (r: Option<&Cause>)
        ensures
            r is Some <==> self.spec_source() is Some,
            r is Some ==> *r->0 == self.spec_source()->0,
    {
        match self {
            ErrorKind::StatusCode(e) => e.source(),
            ErrorKind::Method(e) => e.source(),
            ErrorKind::Uri(e) => e.source(),
            ErrorKind::UriParts(e) => e.source(),
            ErrorKind::HeaderName(e) => e.source(),
            ErrorKind::HeaderValue(e) => e.source(),
            ErrorKind::MaxSizeReached(e) => e.source(),
        }
    }
}

/// The library's umbrella error: it holds exactly one failure, of any of the
/// library's failure types, and never changes after it is built.
///
/// Every failure type converts into it, so that functions failing in
/// different ways can share one error type.
#[derive(Debug, PartialEq, Eq)]
pub struct Error {
    inner: ErrorKind,
}

/// A `Result` whose error is the umbrella [`Error`].
pub type Result<T> = core::result::Result<T, Error>;

impl Error {
    /// The failure held.
    pub closed spec fn kind(&self) -> ErrorKind {
        self.inner
    }

    /// The error that holds `v`.
    pub closed spec fn spec_wrap<T: ErrorValue>(v: T) -> Error {
        Error { inner: v.into_kind_spec() }
    }

    /// Wraps a failure of any of the library's failure types.
    pub fn new<T: ErrorValue>(v: T) -> (r: Error)
        ensures
            r == Error::spec_wrap(v),
            r.kind() == v.into_kind_spec(),
    {
        Error { inner: v.into_kind() }
    }

    /// Whether the failure held is of type `T`.
    pub fn is<T: ErrorValue>(&self) -> (r: bool)
        ensures
            r == (self.kind().tag() == T::type_tag()),
    {
        self.get_ref().is::<T>()
    }

    /// The failure held, to be inspected or narrowed to its exact type.
    pub fn get_ref(&self) -> (r: &ErrorKind)
        ensures
            *r == self.kind(),
    {
        &self.inner
    }

    /// The cause of the failure held: the failure's own cause, with no link
    /// added for this wrapper.
    pub fn source(&self) -> (r: Option<&Cause>)
        ensures
            r is Some <==> self.kind().spec_source() is Some,
            r is Some ==> *r->0 == self.kind().spec_source()->0,
    {
        self.get_ref().source()
    }

    /// The text that shows this error: the failure's own message, with no
    /// framing added.
    pub fn message(&self) -> (r: &'static str)
        ensures
            r@ == self.kind().spec_message(),
    {
        self.get_ref().message()
    }
}

/// Wrapping a failure of type `T` gives an error that is of type `U`
/// exactly when `U` is `T`.
pub proof fn law_is_exact<T: ErrorValue, U: ErrorValue>(v: T)
    ensures
        (Error::spec_wrap(v).kind().tag() == U::type_tag()) <==> (T::type_tag() == U::type_tag()),
{
    T::lemma_round_trip(v);
}

/// Narrowing a wrapped failure to its own type always succeeds and gives the
/// failure back.
pub proof fn law_get_ref_round_trip<T: ErrorValue>(v: T)
    ensures
        T::narrow(Error::spec_wrap(v).kind()) == Some(v),
{
    T::lemma_round_trip(v);
}

/// The cause of a wrapped failure is the failure's own cause.
pub proof fn law_source_preserved<T: ErrorValue>(v: T)
    ensures
        Error::spec_wrap(v).kind().spec_source() == v.into_kind_spec().spec_source(),
{
}

/// A wrapped failure is shown exactly as the failure itself.
pub proof fn law_message_preserved<T: ErrorValue>(v: T)
    ensures
        Error::spec_wrap(v).kind().spec_message() == v.into_kind_spec().spec_message(),
{
}

impl From<InvalidStatusCode> for Error {
    fn from(err: InvalidStatusCode) -> (r: Error)
        ensures
            r.kind() == err.into_kind_spec(),
    {
        Error::new(err)
    }
}

impl vstd::std_specs::convert::FromSpecImpl<InvalidStatusCode> for Error {
    open spec fn obeys_from_spec() -> bool {
        true
    }

    open spec fn from_spec(err: InvalidStatusCode) -> Error {
        Error::spec_wrap(err)
    }
}

impl From<InvalidMethod> for Error {
    fn from(err: InvalidMethod) -> (r: Error)
        ensures
            r.kind() == err.into_kind_spec(),
    {
        Error::new(err)
    }
}

impl vstd::std_specs::convert::FromSpecImpl<InvalidMethod> for Error {
    open spec fn obeys_from_spec() -> bool {
        true
    }

    open spec fn from_spec(err: InvalidMethod) -> Error {
        Error::spec_wrap(err)
    }
}

impl From<InvalidUri> for Error {
    fn from(err: InvalidUri) -> (r: Error)
        ensures
            r.kind() == err.into_kind_spec(),
    {
        Error::new(err)
    }
}

impl vstd::std_specs::convert::FromSpecImpl<InvalidUri> for Error {
    open spec fn obeys_from_spec() -> bool {
        true
    }

    open spec fn from_spec(err: InvalidUri) -> Error {
        Error::spec_wrap(err)
    }
}

impl From<InvalidUriParts> for Error {
    fn from(err: InvalidUriParts) -> (r: Error)
        ensures
            r.kind() == err.into_kind_spec(),
    {
        Error::new(err)
    }
}

impl vstd::std_specs::convert::FromSpecImpl<InvalidUriParts> for Error {
    open spec fn obeys_from_spec() -> bool {
        true
    }

    open spec fn from_spec(err: InvalidUriParts) -> Error {
        Error::spec_wrap(err)
    }
}

impl From<InvalidHeaderName> for Error {
    fn from(err: InvalidHeaderName) -> (r: Error)
        ensures
            r.kind() == err.into_kind_spec(),
    {
        Error::new(err)
    }
}

impl vstd::std_specs::convert::FromSpecImpl<InvalidHeaderName> for Error {
    open spec fn obeys_from_spec() -> bool {
        true
    }

    open spec fn from_spec(err: InvalidHeaderName) -> Error {
        Error::spec_wrap(err)
    }
}

impl From<InvalidHeaderValue> for Error {
    fn from(err: InvalidHeaderValue) -> (r: Error)
        ensures
            r.kind() == err.into_kind_spec(),
    {
        Error::new(err)
    }
}

impl vstd::std_specs::convert::FromSpecImpl<InvalidHeaderValue> for Error {
    open spec fn obeys_from_spec() -> bool {
        true
    }

    open spec fn from_spec(err: InvalidHeaderValue) -> Error {
        Error::spec_wrap(err)
    }
}

impl From<MaxSizeReached> for Error {
    fn from(err: MaxSizeReached) -> (r: Error)
        ensures
            r.kind() == err.into_kind_spec(),
    {
        Error::new(err)
    }
}

impl vstd::std_specs::convert::FromSpecImpl<MaxSizeReached> for Error {
    open spec fn obeys_from_spec() -> bool {
        true
    }

    open spec fn from_spec(err: MaxSizeReached) -> Error {
        Error::spec_wrap(err)
    }
}

} // verus!
