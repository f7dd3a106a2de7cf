//! The failure taxonomy shared by both protocol clients.
//!
//! Every fallible step in either client maps its underlying cause into exactly
//! one of these variants at the point where the cause first occurs. Each
//! variant wraps the textual representation of the underlying cause; only
//! `Generic` carries a message authored by the client logic itself.

use vstd::prelude::*;

verus! {

/// A closed union of every failure source reachable from either client.
#[derive(Debug)]
pub enum Error {
    /// A protocol-level anomaly described by the client logic itself.
    Generic(String),
    /// The endpoint string (or its resolution against the token path) did not
    /// parse as a valid URL.
    InvalidEndpoint(String),
    /// The HTTP exchange itself failed.
    TransportFailure(String),
    /// Reading the response stream failed.
    IOFailure(String),
    /// A response that should have carried well-formed text or JSON did not.
    EncodingFailure(String),
    /// Establishing the TLS-capable transport failed.
    TLSFailure(String),
}

/// The mathematical shape of an [`Error`]: the same six variants over
/// character sequences.
pub enum ErrView {
    Generic(Seq<char>),
    InvalidEndpoint(Seq<char>),
    TransportFailure(Seq<char>),
    IOFailure(Seq<char>),
    EncodingFailure(Seq<char>),
    TLSFailure(Seq<char>),
}

impl View for Error {
    type V = ErrView;

    open spec fn view(&self) -> ErrView {
        match self {
            Error::Generic(m) => ErrView::Generic(m@),
            Error::InvalidEndpoint(m) => ErrView::InvalidEndpoint(m@),
            Error::TransportFailure(m) => ErrView::TransportFailure(m@),
            Error::IOFailure(m) => ErrView::IOFailure(m@),
            Error::EncodingFailure(m) => ErrView::EncodingFailure(m@),
            Error::TLSFailure(m) => ErrView::TLSFailure(m@),
        }
    }
}

/// The text wrapped by an error, whichever variant carries it.
pub open spec fn text_of(e: ErrView) -> Seq<char> {
    match e {
        ErrView::Generic(m) => m,
        ErrView::InvalidEndpoint(m) => m,
        ErrView::TransportFailure(m) => m,
        ErrView::IOFailure(m) => m,
        ErrView::EncodingFailure(m) => m,
        ErrView::TLSFailure(m) => m,
    }
}

impl Error {
    /// The textual representation of the failure: the wrapped cause's own
    /// text, or, for `Generic`, the message the client logic authored.
    pub fn message(&self) -> (r: &str)
        ensures
            r@ == text_of(self@),
    {
        match self {
            Error::Generic(m) => m.as_str(),
            Error::InvalidEndpoint(m) => m.as_str(),
            Error::TransportFailure(m) => m.as_str(),
            Error::IOFailure(m) => m.as_str(),
            Error::EncodingFailure(m) => m.as_str(),
            Error::TLSFailure(m) => m.as_str(),
        }
    }
}

/// Whether two results are structurally identical: the same arm, with views
/// that agree.
pub open spec fn results_alike<T: View, E: View>(a: Result<T, E>, b: Result<T, E>) -> bool {
    match (a, b) {
        (Ok(x), Ok(y)) => x@ == y@,
        (Err(x), Err(y)) => x@ == y@,
        _ => false,
    }
}

impl From<String> for Error {
    /// A bare message becomes a `Generic` failure.
    fn from(message: String) -> (r: Error) {
        Error::Generic(message)
    }
}

impl vstd::std_specs::convert::FromSpecImpl<String> for Error {
    open spec fn obeys_from_spec() -> bool {
        true
    }

    open spec fn from_spec(message: String) -> Error {
        Error::Generic(message)
    }
}

} // verus!
