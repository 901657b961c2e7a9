//! The two kinds of failure that every fallible operation reports.

use vstd::prelude::*;
use vstd::string::*;

verus! {

/// A failure, classified by where it arose.
///
/// `Connection` covers whatever the transport reports before or during the
/// exchange; `Body` covers whatever goes wrong while payload bytes are read
/// or decoded. The cause is carried as the text it displays and is never
/// inspected.
#[derive(Debug)]
pub enum Error {
    Connection(String),
    Body(String),
}

/// The prefix that `message` puts before the cause of a connection failure.
pub open spec fn connection_prefix() -> Seq<char> {
    "connection: "@
}

/// The prefix that `message` puts before the cause of a body failure.
pub open spec fn body_prefix() -> Seq<char> {
    "body: "@
}

impl Error {
    /// The text of the underlying cause.
    pub open spec fn cause(&self) -> Seq<char> {
        match self {
            Error::Connection(cause) => cause@,
            Error::Body(cause) => cause@,
        }
    }

    /// What `message` renders: the kind's prefix followed by the cause.
    pub open spec fn rendered(&self) -> Seq<char> {
        match self {
            Error::Connection(cause) => connection_prefix() + cause@,
            Error::Body(cause) => body_prefix() + cause@,
        }
    }

    /// A connection-level failure wrapping `cause`.
    pub fn conn(cause: String) -> (e: Error)
        ensures
            e == Error::Connection(cause),
    {
        Error::Connection(cause)
    }

    /// A payload-level failure wrapping `cause`.
    pub fn body(cause: String) -> (e: Error)
        ensures
            e == Error::Body(cause),
    {
        Error::Body(cause)
    }

    /// Whether this is a connection-level failure.
    pub fn is_connection(&self) -> (b: bool)
        ensures
            b == (self is Connection),
    {
        match self {
            Error::Connection(_) => true,
            Error::Body(_) => false,
        }
    }

    /// Whether this is a payload-level failure.
    pub fn is_body(&self) -> (b: bool)
        ensures
            b == (self is Body),
    {
        match self {
            Error::Connection(_) => false,
            Error::Body(_) => true,
        }
    }

    /// The failure as a line of text: `connection: ` or `body: `, then the
    /// cause.
    pub fn message(&self) -> (s: String)
        ensures
            s@ == self.rendered(),
    {
        match self {
            Error::Connection(cause) => {
                let mut out = String::from_str("connection: ");
                out.append(cause.as_str());
                out
            },
            Error::Body(cause) => {
                let mut out = String::from_str("body: ");
                out.append(cause.as_str());
                out
            },
        }
    }
}

} // verus!
