//! Failures that the client reports to its caller.

use vstd::prelude::*;

verus! {

/// Why an operation of the client did not produce a value.
#[derive(Debug, PartialEq, Eq)]
pub enum Error {
    /// Connecting or sending failed.
    TransportError(String),
    /// No matching response arrived before the deadline.
    Timeout,
    /// A payload was malformed or of an unexpected shape.
    ProtocolError(String),
    /// The server answered with a result code other than success.
    ServerError { code: i32, message: String },
    /// The queried configuration does not exist.
    NotFound,
    /// The client is shutting down.
    Cancelled,
}

/// The model of an [`Error`]: its texts as sequences of characters.
pub enum ErrorView {
    TransportError(Seq<char>),
    Timeout,
    ProtocolError(Seq<char>),
    ServerError { code: int, message: Seq<char> },
    NotFound,
    Cancelled,
}

impl View for Error {
    type V = ErrorView;

    open spec fn view(&self) -> ErrorView {
        match *self {
            Error::TransportError(m) => ErrorView::TransportError(m@),
            Error::Timeout => ErrorView::Timeout,
            Error::ProtocolError(m) => ErrorView::ProtocolError(m@),
            Error::ServerError { code, message } => ErrorView::ServerError {
                code: code as int,
                message: message@,
            },
            Error::NotFound => ErrorView::NotFound,
            Error::Cancelled => ErrorView::Cancelled,
        }
    }
}

impl Clone for Error {
    fn clone(&self) -> (r: Self)
        ensures
            r@ == self@,
    {
        match self {
            Error::TransportError(m) => Error::TransportError(m.clone()),
            Error::Timeout => Error::Timeout,
            Error::ProtocolError(m) => Error::ProtocolError(m.clone()),
            Error::ServerError { code, message } => Error::ServerError {
                code: *code,
                message: message.clone(),
            },
            Error::NotFound => Error::NotFound,
            Error::Cancelled => Error::Cancelled,
        }
    }
}

} // verus!
