//! The PostgreSQL adapter: what it binds to a statement, how it reads the
//! rows that come back, and how it reports a failure. Running a statement
//! is left to the caller.

use vstd::prelude::*;
use vstd::std_specs::convert::FromSpecImpl;
use vstd::string::*;

use crate::model::error::{
    Error as ModelError, ErrorView as ModelErrorView, StorageError, StorageErrorKind,
    StorageErrorView,
};
use crate::ports::secondary::remote::{Error as RemoteError, ErrorView as RemoteErrorView};

pub mod docker;
pub mod remote;
pub mod storage;

verus! {

/// The failures of the database driver that the adapter tells apart.
#[derive(Debug, Clone, Copy, PartialEq, Eq, Structural)]
pub enum DriverErrorKind {
    /// A statement that had to return a row returned none.
    RowNotFound,
    /// The database refused the statement because it would have stored
    /// twice what may be stored once.
    UniqueViolation,
    /// The database refused the statement on any other ground.
    Database,
    /// Any other failure.
    Other,
}

/// A failure of the database driver: its kind and the driver's text.
#[derive(Debug, PartialEq, Eq)]
pub struct DriverError {
    pub kind: DriverErrorKind,
    pub message: String,
}

/// What a `DriverError` holds.
pub struct DriverErrorView {
    pub kind: DriverErrorKind,
    pub message: Seq<char>,
}

impl View for DriverError {
    type V = DriverErrorView;

    open spec fn view(&self) -> DriverErrorView {
        DriverErrorView { kind: self.kind, message: self.message@ }
    }
}

/// The adapter's error.
#[derive(Debug, PartialEq, Eq)]
#[allow(inconsistent_fields)]
pub enum Error {
    /// The database could not be reached.
    Connection { source: RemoteError },
    /// The requested entity does not exist.
    NotFound,
    /// The operation violates a uniqueness constraint.
    UniqueViolation { details: String },
    /// Stored data does not fit the data model.
    ModelViolation { details: String },
    /// Any other failure of the driver, with the failure itself.
    UnHandledError { source: DriverError },
}

/// What an `Error` holds.
#[allow(inconsistent_fields)]
pub enum ErrorView {
    Connection { source: RemoteErrorView },
    NotFound,
    UniqueViolation { details: Seq<char> },
    ModelViolation { details: Seq<char> },
    UnHandledError { source: DriverErrorView },
}

impl View for Error {
    type V = ErrorView;

    open spec fn view(&self) -> ErrorView {
        match self {
            Error::Connection { source } => ErrorView::Connection { source: source@ },
            Error::NotFound => ErrorView::NotFound,
            Error::UniqueViolation { details } => ErrorView::UniqueViolation { details: details@ },
            Error::ModelViolation { details } => ErrorView::ModelViolation { details: details@ },
            Error::UnHandledError { source } => ErrorView::UnHandledError { source: source@ },
        }
    }
}

impl ErrorView {
    /// The kind under which the error crosses the storage port.
    pub open spec fn kind(self) -> StorageErrorKind {
        match self {
            ErrorView::Connection { .. } => StorageErrorKind::Connection,
            ErrorView::NotFound => StorageErrorKind::NotFound,
            ErrorView::UniqueViolation { .. } => StorageErrorKind::UniqueViolation,
            ErrorView::ModelViolation { .. } => StorageErrorKind::ModelViolation,
            ErrorView::UnHandledError { .. } => StorageErrorKind::UnHandledError,
        }
    }

    /// The text that describes the error.
    pub open spec fn message(self) -> Seq<char> {
        match self {
            ErrorView::Connection { .. } => "Connection"@,
            ErrorView::NotFound => "Entity does not exist"@,
            ErrorView::UniqueViolation { details } => "Operation violates uniqueness constraint: "@
                + details,
            ErrorView::ModelViolation { details } => "Operation violates model: "@ + details,
            ErrorView::UnHandledError { source } => "UnHandled Error: "@ + source.message,
        }
    }

    /// The error as it crosses the storage port: a storage error of the
    /// domain, with the kind and the text of this one.
    pub open spec fn in_domain(self) -> ModelErrorView {
        ModelErrorView::Storage {
            source: StorageErrorView { kind: self.kind(), message: self.message() },
        }
    }
}

impl Error {
    pub fn kind(&self) -> (kind: StorageErrorKind)
        ensures
            kind == self@.kind(),
    {
        match self {
            Error::Connection { .. } => StorageErrorKind::Connection,
            Error::NotFound => StorageErrorKind::NotFound,
            Error::UniqueViolation { .. } => StorageErrorKind::UniqueViolation,
            Error::ModelViolation { .. } => StorageErrorKind::ModelViolation,
            Error::UnHandledError { .. } => StorageErrorKind::UnHandledError,
        }
    }

    /// The text that describes the error.
    pub fn message(&self) -> (text: String)
        ensures
            text@ == self@.message(),
    {
        match self {
            Error::Connection { .. } => String::from_str("Connection"),
            Error::NotFound => String::from_str("Entity does not exist"),
            Error::UniqueViolation { details } => String::from_str(
                "Operation violates uniqueness constraint: ",
            ).concat(details.as_str()),
            Error::ModelViolation { details } => String::from_str(
                "Operation violates model: ",
            ).concat(details.as_str()),
            Error::UnHandledError { source } => String::from_str("UnHandled Error: ").concat(
                source.message.as_str(),
            ),
        }
    }
}

impl DriverErrorView {
    /// The driver's failure as the adapter reports it: a missing row is an
    /// entity that does not exist; a refusal to store twice is a unique
    /// violation, with the driver's text for its details; every other
    /// failure is kept whole, as an unhandled error.
    pub open spec fn reported(self) -> ErrorView {
        match self.kind {
            DriverErrorKind::RowNotFound => ErrorView::NotFound,
            DriverErrorKind::UniqueViolation => ErrorView::UniqueViolation {
                details: self.message,
            },
            _ => ErrorView::UnHandledError { source: self },
        }
    }
}

impl From<DriverError> for Error {
    fn from(e: DriverError) -> (error: Error) {
        match e.kind {
            DriverErrorKind::RowNotFound => Error::NotFound,
            DriverErrorKind::UniqueViolation => Error::UniqueViolation { details: e.message },
            DriverErrorKind::Database => Error::UnHandledError { source: e },
            DriverErrorKind::Other => Error::UnHandledError { source: e },
        }
    }
}

impl FromSpecImpl<DriverError> for Error {
    open spec fn obeys_from_spec() -> bool {
        true
    }

    /// The error whose view is `e@.reported()`.
    open spec fn from_spec(e: DriverError) -> Error {
        match e.kind {
            DriverErrorKind::RowNotFound => Error::NotFound,
            DriverErrorKind::UniqueViolation => Error::UniqueViolation { details: e.message },
            _ => Error::UnHandledError { source: e },
        }
    }
}

impl From<Error> for ModelError {
    fn from(e: Error) -> (error: ModelError)
        ensures
            error@ == e@.in_domain(),
    {
        ModelError::Storage { source: StorageError { kind: e.kind(), message: e.message() } }
    }
}

/// `from` writes the error's text anew, so its contract speaks of what the
/// domain error holds, and no error is singled out here.
impl FromSpecImpl<Error> for ModelError {
    open spec fn obeys_from_spec() -> bool {
        false
    }

    open spec fn from_spec(e: Error) -> ModelError {
        choose|error: ModelError| error@ == e@.in_domain()
    }
}

/// Where the database is, and how many milliseconds a connection may take
/// to be made.
#[derive(Debug, PartialEq, Eq)]
pub struct PostgresqlStorageConfig {
    pub url: String,
    pub timeout: u64,
}

impl Clone for PostgresqlStorageConfig {
    fn clone(&self) -> (copy: PostgresqlStorageConfig)
        ensures
            copy == *self,
    {
        PostgresqlStorageConfig { url: self.url.clone(), timeout: self.timeout }
    }
}

/// The PostgreSQL backend: a hold on the pool of connections to the
/// database.
#[derive(Debug)]
pub struct PostgresqlStorage<P> {
    pub pool: P,
}

impl<P> PostgresqlStorage<P> {
    /// The backend on the pool that was made for it. Where no pool could
    /// be made, the failure is the adapter's failure to connect.
    pub fn new(pool: Result<P, RemoteError>) -> (storage: Result<PostgresqlStorage<P>, Error>)
        ensures
            match pool {
                Ok(made) => storage == Ok::<PostgresqlStorage<P>, Error>(
                    PostgresqlStorage { pool: made },
                ),
                Err(source) => storage == Err::<PostgresqlStorage<P>, Error>(
                    Error::Connection { source },
                ),
            },
    {
        match pool {
            Ok(made) => Ok(PostgresqlStorage { pool: made }),
            Err(source) => Err(Error::Connection { source }),
        }
    }
}

} // verus!
