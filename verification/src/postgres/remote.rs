//! Failures on the way to the database.

use vstd::prelude::*;
use vstd::std_specs::convert::FromSpecImpl;
use vstd::string::*;

use super::{DriverError, DriverErrorView};
use crate::ports::secondary::remote::{Error as RemoteError, ErrorView as RemoteErrorView};

verus! {

/// Why no connection to the database was made. `source` is, in each case,
/// the text of the failure underneath.
#[derive(Debug, PartialEq, Eq)]
#[allow(inconsistent_fields)]
pub enum Error {
    InvalidUrl { details: String, source: String },
    PostgresqlConnection { source: DriverError },
    /// Invalid version requirements.
    VersionRequirementInvalid { details: String, source: String },
}

/// What an `Error` holds.
#[allow(inconsistent_fields)]
pub enum ErrorView {
    InvalidUrl { details: Seq<char>, source: Seq<char> },
    PostgresqlConnection { source: DriverErrorView },
    VersionRequirementInvalid { details: Seq<char>, source: Seq<char> },
}

impl View for Error {
    type V = ErrorView;

    open spec fn view(&self) -> ErrorView {
        match self {
            Error::InvalidUrl { details, source } => ErrorView::InvalidUrl {
                details: details@,
                source: source@,
            },
            Error::PostgresqlConnection { source } => ErrorView::PostgresqlConnection {
                source: source@,
            },
            Error::VersionRequirementInvalid {
                details,
                source,
            } => ErrorView::VersionRequirementInvalid { details: details@, source: source@ },
        }
    }
}

impl ErrorView {
    /// The text that describes the error.
    pub open spec fn message(self) -> Seq<char> {
        match self {
            ErrorView::InvalidUrl { details, source } => "Invalid Postgresql URL: "@ + details
                + ", "@ + source,
            ErrorView::PostgresqlConnection { source } => "Postgresql Connection Error: "@
                + source.message,
            ErrorView::VersionRequirementInvalid {
                details,
                source,
            } => "Invalid Version Requirement Specification "@ + details + ": "@ + source,
        }
    }

    /// The error as the remote port reports it.
    pub open spec fn in_port(self) -> RemoteErrorView {
        RemoteErrorView::Connection { source: self.message() }
    }
}

impl Error {
    /// The text that describes the error.
    pub fn message(&self) -> (text: String)
        ensures
            text@ == self@.message(),
    {
        match self {
            Error::InvalidUrl { details, source } => {
                let mut text = String::from_str("Invalid Postgresql URL: ");
                text.append(details.as_str());
                text.append(", ");
                text.append(source.as_str());
                text
            },
            Error::PostgresqlConnection { source } => String::from_str(
                "Postgresql Connection Error: ",
            ).concat(source.message.as_str()),
            Error::VersionRequirementInvalid { details, source } => {
                let mut text = String::from_str("Invalid Version Requirement Specification ");
                text.append(details.as_str());
                text.append(": ");
                text.append(source.as_str());
                text
            },
        }
    }
}

impl From<Error> for RemoteError {
    fn from(error: Error) -> (reported: RemoteError)
        ensures
            reported@ == error@.in_port(),
    {
        RemoteError::Connection { source: error.message() }
    }
}

/// `from` writes the error's text anew, so its contract speaks of what the
/// port's error holds, and no error is singled out here.
impl FromSpecImpl<Error> for RemoteError {
    open spec fn obeys_from_spec() -> bool {
        false
    }

    open spec fn from_spec(error: Error) -> RemoteError {
        choose|reported: RemoteError| reported@ == error@.in_port()
    }
}

/// What the making of a connection pool returns: the pool that the driver
/// made, or the driver's failure as the remote port reports it.
pub fn connection_pool<P>(made: Result<P, DriverError>) -> (pool: Result<P, RemoteError>)
    ensures
        match made {
            Ok(p) => pool == Ok::<P, RemoteError>(p),
            Err(e) => pool matches Err(reported) && reported@ == (ErrorView::PostgresqlConnection {
                source: e@,
            }).in_port(),
        },
{
    match made {
        Ok(p) => Ok(p),
        Err(e) => Err(RemoteError::from(Error::PostgresqlConnection { source: e })),
    }
}

} // verus!
