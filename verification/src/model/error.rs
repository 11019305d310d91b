//! The error that crosses a storage port.

use vstd::prelude::*;
use vstd::string::*;

verus! {

/// An outcome by what it holds: the view of what came back, or the view
/// of the error.
pub open spec fn viewed<T: View, E: View>(outcome: Result<T, E>) -> Result<T::V, E::V> {
    match outcome {
        Ok(value) => Ok(value@),
        Err(error) => Err(error@),
    }
}

/// The kinds of failure that a storage backend reports.
#[derive(Debug, Clone, Copy, PartialEq, Eq, Structural)]
pub enum StorageErrorKind {
    /// The backend could not be reached.
    Connection,
    /// No stored entity answers the request.
    NotFound,
    /// The identity of a new entity is already taken.
    UniqueViolation,
    /// Stored data does not fit the domain model.
    ModelViolation,
    /// Any other failure of the backend.
    UnHandledError,
}

/// What a storage adapter reports when it fails: the kind of the failure
/// and the adapter's own account of it.
#[derive(Debug, PartialEq, Eq)]
pub struct StorageError {
    pub kind: StorageErrorKind,
    pub message: String,
}

/// What a `StorageError` holds.
pub struct StorageErrorView {
    pub kind: StorageErrorKind,
    pub message: Seq<char>,
}

impl View for StorageError {
    type V = StorageErrorView;

    open spec fn view(&self) -> StorageErrorView {
        StorageErrorView { kind: self.kind, message: self.message@ }
    }
}

/// The domain error.
#[derive(Debug, PartialEq, Eq)]
pub enum Error {
    Storage { source: StorageError },
}

/// What an `Error` holds.
pub enum ErrorView {
    Storage { source: StorageErrorView },
}

impl View for Error {
    type V = ErrorView;

    open spec fn view(&self) -> ErrorView {
        match self {
            Error::Storage { source } => ErrorView::Storage { source: source@ },
        }
    }
}

impl ErrorView {
    /// The kind of the storage failure behind the error.
    pub open spec fn kind(self) -> StorageErrorKind {
        match self {
            ErrorView::Storage { source } => source.kind,
        }
    }

    /// The text that describes the error.
    pub open spec fn message(self) -> Seq<char> {
        match self {
            ErrorView::Storage { source } => "Storage Error: "@ + source.message,
        }
    }
}

impl Error {
    /// A storage error of the given kind.
    pub fn storage(kind: StorageErrorKind, message: &str) -> (error: Error)
        ensures
            error@ == (ErrorView::Storage {
                source: StorageErrorView { kind, message: message@ },
            }),
    {
        Error::Storage { source: StorageError { kind, message: String::from_str(message) } }
    }

    pub fn kind(&self) -> (kind: StorageErrorKind)
        ensures
            kind == self@.kind(),
    {
        match self {
            Error::Storage { source } => source.kind,
        }
    }

    /// The text that describes the error.
    pub fn message(&self) -> (text: String)
        ensures
            text@ == self@.message(),
    {
        match self {
            Error::Storage { source } => String::from_str("Storage Error: ").concat(
                source.message.as_str(),
            ),
        }
    }
}

} // verus!
