//! The error of a port that reaches a remote service.

use vstd::prelude::*;
use vstd::string::*;

verus! {

/// The remote service could not be reached; `source` is the adapter's
/// account of why.
#[derive(Debug, PartialEq, Eq)]
pub enum Error {
    Connection { source: String },
}

/// What an `Error` holds.
pub enum ErrorView {
    Connection { source: Seq<char> },
}

impl View for Error {
    type V = ErrorView;

    open spec fn view(&self) -> ErrorView {
        match self {
            Error::Connection { source } => ErrorView::Connection { source: source@ },
        }
    }
}

impl ErrorView {
    /// The text that describes the error.
    pub open spec fn message(self) -> Seq<char> {
        match self {
            ErrorView::Connection { source } => "Connection Error: "@ + source,
        }
    }
}

impl Error {
    /// The text that describes the error.
    pub fn message(&self) -> (text: String)
        ensures
            text@ == self@.message(),
    {
        match self {
            Error::Connection { source } => String::from_str("Connection Error: ").concat(
                source.as_str(),
            ),
        }
    }
}

} // verus!
