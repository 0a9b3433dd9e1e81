//! HTTP request methods.

use vstd::prelude::*;

verus! {

/// An HTTP request method.
#[derive(Debug, Copy, Clone, PartialEq, Eq, Structural)]
pub enum Method {
    Get,
    Post,
}

impl Method {
    /// The method's name on the wire.
    pub open spec fn spec_name(&self) -> Seq<char> {
        match self {
            Method::Get => "GET"@,
            Method::Post => "POST"@,
        }
    }

    /// Whether this is `GET`.
    pub fn get(&self) -> (r: bool)
        ensures
            r == (*self == Method::Get),
    {
        matches!(self, Method::Get)
    }

    /// The method's name on the wire: "GET" or "POST".
    pub fn name(&self) -> (r: &'static str)
        ensures
            r@ == self.spec_name(),
    {
        match self {
            Method::Get => "GET",
            Method::Post => "POST",
        }
    }
}

} // verus!
