//! The underlying cause that a validation failure may carry: a message and,
//! possibly, a deeper cause of its own.
use vstd::prelude::*;

verus! {

/// One link of a cause chain.
#[derive(Debug, PartialEq, Eq)]
pub struct Cause {
    message: String,
    source: Option<Box<Cause>>,
}

impl Cause {
    /// The message of this link.
    pub closed spec fn spec_message(&self) -> Seq<char> {
        self.message@
    }

    /// The next link, if there is one.
    pub closed spec fn spec_source(&self) -> Option<Cause> {
        match self.source {
            Some(b) => Some(*b),
            None => None,
        }
    }

    /// The messages of the whole chain, starting with this link.
    pub closed spec fn chain(&self) -> Seq<Seq<char>>
        decreases self,
    {
        match self.source {
            Some(b) => seq![self.message@] + (*b).chain(),
            None => seq![self.message@],
        }
    }

    /// A cause with no deeper cause.
    pub fn new(message: String) -> (r: Cause)
        ensures
            r.spec_message() == message@,
            r.spec_source() is None,
            r.chain() == seq![message@],
    {
        Cause { message, source: None }
    }

    /// A cause that was itself caused by `source`.
    pub fn caused_by(message: String, source: Cause) -> (r: Cause)
        ensures
            r.spec_message() == message@,
            r.spec_source() == Some(source),
            r.chain() == seq![message@] + source.chain(),
    {
        Cause { message, source: Some(Box::new(source)) }
    }

    /// The message of this link.
    pub fn message(&self) -> (r: &str)
        ensures
            r@ == self.spec_message(),
    {
        self.message.as_str()
    }

    /// The next link of the chain, if there is one.
    pub fn source(&self) -> (r: Option<&Cause>)
        ensures
            r is Some <==> self.spec_source() is Some,
            r is Some ==> *r->0 == self.spec_source()->0,
    {
        match &self.source {
            Some(b) => Some(&**b),
            None => None,
        }
    }
}

} // verus!
