//! The typed-request contract every endpoint description satisfies.
use vstd::prelude::*;

verus! {

/// HTTP verbs the access layer can issue.
#[derive(Debug, Clone, Copy, PartialEq, Eq, Structural)]
pub enum Method {
    Get,
    Post,
    Put,
    Delete,
}

/// The capability set an endpoint description must implement for the
/// client to dispatch it generically.
///
/// A conforming type is pure data: it describes one remote call (verb,
/// path segment, optional headers, optional serialized body) and
/// promises that each executable accessor returns exactly the value its
/// specification-level counterpart describes.
pub trait Request {
    /// The path segment this request addresses, as a sequence of
    /// characters. It may embed fields of the request value; the client
    /// normalizes leading and trailing slashes before composing the
    /// final URL.
    spec fn spec_endpoint(&self) -> Seq<char>;

    /// The fixed verb for this endpoint kind.
    spec fn spec_method(&self) -> Method;

    /// Additional header name/value pairs, empty when none are needed.
    spec fn spec_headers(&self) -> Seq<(Seq<char>, Seq<char>)>;

    /// The serialized body payload, absent for read-only endpoints.
    spec fn spec_body(&self) -> Option<Seq<char>>;

    /// Produce the endpoint path segment.
    fn endpoint(&self) -> (r: String)
        ensures
            r@ == self.spec_endpoint(),
    ;

    /// Produce the verb.
    fn method(&self) -> (m: Method)
        ensures
            m == self.spec_method(),
    ;

    /// Produce the additional headers.
    fn headers(&self) -> (h: Vec<(String, String)>)
        ensures
            h.deep_view() == self.spec_headers(),
    ;

    /// Produce the serialized body payload, if any.
    fn body(&self) -> (b: Option<String>)
        ensures
            b.deep_view() == self.spec_body(),
    ;
}

} // verus!
