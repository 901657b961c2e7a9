//! A request and a response: the head that the `http` crate defines, and a
//! payload of any type beside it.
//!
//! The head is carried as it is; nothing here looks inside it.

use vstd::prelude::*;

verus! {

/// `http::request::Parts`, the head of a request: method, target, version,
/// headers and extensions.
#[verifier::external_type_specification]
#[verifier::external_body]
pub struct ExRequestParts(http::request::Parts);

/// `http::response::Parts`, the head of a response: status, version,
/// headers and extensions.
#[verifier::external_type_specification]
#[verifier::external_body]
pub struct ExResponseParts(http::response::Parts);

/// A request with a payload of type `B`.
pub struct Request<B> {
    pub parts: http::request::Parts,
    pub body: B,
}

/// A response with a payload of type `B`.
pub struct Response<B> {
    pub parts: http::response::Parts,
    pub body: B,
}

impl<B> Request<B> {
    /// Puts a head and a payload together.
    pub fn from_parts(parts: http::request::Parts, body: B) -> (request: Request<B>)
        ensures
            request.parts == parts,
            request.body == body,
    {
        Request { parts, body }
    }

    /// Takes the request apart again.
    pub fn into_parts(self) -> (pair: (http::request::Parts, B))
        ensures
            pair.0 == self.parts,
            pair.1 == self.body,
    {
        (self.parts, self.body)
    }

    /// The payload alone.
    pub fn into_body(self) -> (body: B)
        ensures
            body == self.body,
    {
        self.body
    }

    /// The same request with its payload passed through `f`.
    pub fn map<U, F: FnOnce(B) -> U>(self, f: F) -> (request: Request<U>)
        requires
            call_requires(f, (self.body,)),
        ensures
            request.parts == self.parts,
            call_ensures(f, (self.body,), request.body),
    {
        Request { parts: self.parts, body: f(self.body) }
    }
}

impl<B> Response<B> {
    /// Puts a head and a payload together.
    pub fn from_parts(parts: http::response::Parts, body: B) -> (response: Response<B>)
        ensures
            response.parts == parts,
            response.body == body,
    {
        Response { parts, body }
    }

    /// Takes the response apart again.
    pub fn into_parts(self) -> (pair: (http::response::Parts, B))
        ensures
            pair.0 == self.parts,
            pair.1 == self.body,
    {
        (self.parts, self.body)
    }

    /// The payload alone.
    pub fn into_body(self) -> (body: B)
        ensures
            body == self.body,
    {
        self.body
    }

    /// The same response with its payload passed through `f`.
    pub fn map<U, F: FnOnce(B) -> U>(self, f: F) -> (response: Response<U>)
        requires
            call_requires(f, (self.body,)),
        ensures
            response.parts == self.parts,
            call_ensures(f, (self.body,), response.body),
    {
        Response { parts: self.parts, body: f(self.body) }
    }
}

} // verus!
