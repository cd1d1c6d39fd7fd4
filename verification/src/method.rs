//! The HTTP verbs the exchange's private endpoints are called with.

use vstd::prelude::*;

verus! {

/// An HTTP request method.
#[derive(Clone, Copy, Debug, PartialEq, Eq, Structural)]
pub enum Method {
    Get,
    Post,
}

impl Method {
    /// The upper-case token that stands for the method on the wire and in the
    /// signed message.
    pub open spec fn token(self) -> Seq<char> {
        match self {
            Method::Get => "GET"@,
            Method::Post => "POST"@,
        }
    }

    /// The method's token.
    pub fn as_str(self) -> (token: &'static str)
        ensures
            token@ == self.token(),
    {
        match self {
            Method::Get => "GET",
            Method::Post => "POST",
        }
    }
}

} // verus!
