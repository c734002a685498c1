//! The request methods that the routes tell apart.

use vstd::prelude::*;

verus! {

/// A request's method, as far as the server's answer depends on it.
#[derive(Clone, Copy, Debug, PartialEq, Eq, Structural)]
pub enum Method {
    /// `GET`.
    Get,
    /// `HEAD`: answered as `GET` is; the transport leaves the body out.
    Head,
    /// Every other method.
    Other,
}

impl Method {
    /// The method that a request line's method token stands for. Tokens are
    /// case-sensitive.
    pub open spec fn named(name: Seq<char>) -> Method {
        if name == "GET"@ {
            Method::Get
        } else if name == "HEAD"@ {
            Method::Head
        } else {
            Method::Other
        }
    }

    /// Whether the routes accept the method: both of them are `GET` routes,
    /// and a `GET` route answers `HEAD` too.
    pub open spec fn accepted(self) -> bool {
        self is Get || self is Head
    }

    /// Reads a method from its token.
    pub fn from_name(name: &str) -> (method: Method)
        ensures
            method == Method::named(name@),
    {
        if crate::text::same_text(name, "GET") {
            Method::Get
        } else if crate::text::same_text(name, "HEAD") {
            Method::Head
        } else {
            Method::Other
        }
    }

    /// Whether the routes accept the method.
    pub fn is_accepted(self) -> (accepted: bool)
        ensures
            accepted == self.accepted(),
    {
        match self {
            Method::Get => true,
            Method::Head => true,
            Method::Other => false,
        }
    }
}

} // verus!
