//! The GraphQL client: what it sends with each operation, and what it makes
//! of the answer. The HTTP exchange itself is the caller's.

use vstd::prelude::*;
use vstd::string::*;

pub use crate::graphql::api::{
    AddDocumentRequest, DocumentResponse, GetDocumentRequest, ListDocumentsRequest,
};
use crate::graphql::api::TransportError;

verus! {

/// The client's error: a failure of the transport, and the client's word
/// on what it was doing when the failure came.
#[derive(Debug, PartialEq, Eq)]
pub enum Error {
    Reqwest { msg: String, source: TransportError },
}

/// What an `Error` holds.
pub enum ErrorView {
    Reqwest { msg: Seq<char>, source: Seq<char> },
}

impl View for Error {
    type V = ErrorView;

    open spec fn view(&self) -> ErrorView {
        match self {
            Error::Reqwest { msg, source } => ErrorView::Reqwest {
                msg: msg@,
                source: source.message@,
            },
        }
    }
}

impl ErrorView {
    /// The text that describes the error.
    pub open spec fn message(self) -> Seq<char> {
        match self {
            ErrorView::Reqwest { msg, source } => "Request Error: "@ + msg + " - "@ + source,
        }
    }
}

impl Error {
    /// The text that describes the error.
    pub fn message(&self) -> (text: String)
        ensures
            text@ == self@.message(),
    {
        match self {
            Error::Reqwest { msg, source } => {
                let mut text = String::from_str("Request Error: ");
                text.append(msg.as_str());
                text.append(" - ");
                text.append(source.message.as_str());
                text
            },
        }
    }
}

/// The headers that go with every request, each as its name and its
/// value: responses may come compressed, and both ways the body is JSON.
pub fn headers() -> (headers: Vec<(&'static str, &'static str)>)
    ensures
        headers@.len() == 3,
        headers@[0].0@ == "Accept-Encoding"@ && headers@[0].1@ == "gzip, deflate, br"@,
        headers@[1].0@ == "Content-Type"@ && headers@[1].1@ == "application/json"@,
        headers@[2].0@ == "Accept"@ && headers@[2].1@ == "application/json"@,
{
    let mut headers: Vec<(&'static str, &'static str)> = Vec::new();
    headers.push(("Accept-Encoding", "gzip, deflate, br"));
    headers.push(("Content-Type", "application/json"));
    headers.push(("Accept", "application/json"));
    headers
}

/// The variables of the listing, as GraphQL integers.
#[derive(Debug, Clone, Copy, PartialEq, Eq, Structural)]
pub struct ListDocumentsVariables {
    pub offset: i64,
    pub limit: i64,
}

/// The variables that a listing sends.
pub fn list_documents_variables(request: ListDocumentsRequest) -> (variables:
    ListDocumentsVariables)
    ensures
        variables.offset == request.offset,
        variables.limit == request.limit,
{
    let ListDocumentsRequest { offset, limit } = request;
    ListDocumentsVariables { offset: offset as i64, limit: limit as i64 }
}

/// What came of sending an operation: no HTTP client could be built; or
/// the request failed; or the server answered, with the data of the
/// operation or without.
#[derive(Debug, PartialEq, Eq)]
pub enum Exchange<T> {
    NoClient { cause: TransportError },
    Failed { cause: TransportError },
    Answered { data: Option<T> },
}

impl<T> Exchange<T> {
    /// The exchange is one that the client has a result for: an answer
    /// without data is none.
    pub open spec fn is_settled(self) -> bool {
        self matches Exchange::Answered { data } ==> data is Some
    }

    /// Whether the exchange is one that the client has a result for.
    pub fn settled(&self) -> (settled: bool)
        ensures
            settled == self.is_settled(),
    {
        match self {
            Exchange::Answered { data: None } => false,
            _ => true,
        }
    }

    /// The result of an exchange: the data of the answer, or the failure
    /// under the client's word for where it came: `unbuilt` where no
    /// client could be built, `unsent` where the request failed.
    fn settle(self, unbuilt: &str, unsent: &str) -> (result: Result<T, Error>)
        requires
            self.is_settled(),
        ensures
            match self {
                Exchange::NoClient { cause } => result matches Err(error) && error@ == (
                ErrorView::Reqwest { msg: unbuilt@, source: cause.message@ }),
                Exchange::Failed { cause } => result matches Err(error) && error@ == (
                ErrorView::Reqwest { msg: unsent@, source: cause.message@ }),
                Exchange::Answered { data } => result == Ok::<T, Error>(data->Some_0),
            },
    {
        match self {
            Exchange::NoClient { cause } => Err(
                Error::Reqwest { msg: String::from_str(unbuilt), source: cause },
            ),
            Exchange::Failed { cause } => Err(
                Error::Reqwest { msg: String::from_str(unsent), source: cause },
            ),
            Exchange::Answered { data } => Ok(data.unwrap()),
        }
    }
}

/// The result of a listing: the documents of the answer, in its order.
pub fn list_documents(exchange: Exchange<Vec<DocumentResponse>>) -> (result: Result<
    Vec<DocumentResponse>,
    Error,
>)
    requires
        exchange.is_settled(),
    ensures
        match exchange {
            Exchange::NoClient { cause } => result matches Err(error) && error@ == (
            ErrorView::Reqwest { msg: "Cannot request list documents"@, source: cause.message@ }),
            Exchange::Failed { cause } => result matches Err(error) && error@ == (
            ErrorView::Reqwest { msg: "Foo"@, source: cause.message@ }),
            Exchange::Answered { data } => result == Ok::<Vec<DocumentResponse>, Error>(
                data->Some_0,
            ),
        },
{
    exchange.settle("Cannot request list documents", "Foo")
}

/// The result of a fetch: the document of the answer. Where the server
/// sent no document there is none to return: an answer without data is
/// left out by the precondition, every failure is an error, and a
/// document that is returned is the very one that the answer held.
pub fn get_document(exchange: Exchange<DocumentResponse>) -> (result: Result<
    DocumentResponse,
    Error,
>)
    requires
        exchange.is_settled(),
    ensures
        result matches Ok(document) ==> exchange == (Exchange::Answered { data: Some(document) }),
        match exchange {
            Exchange::NoClient { cause } => result matches Err(error) && error@ == (
            ErrorView::Reqwest { msg: "Cannot request get document"@, source: cause.message@ }),
            Exchange::Failed { cause } => result matches Err(error) && error@ == (
            ErrorView::Reqwest { msg: "Foo"@, source: cause.message@ }),
            Exchange::Answered { data } => result == Ok::<DocumentResponse, Error>(data->Some_0),
        },
{
    exchange.settle("Cannot request get document", "Foo")
}

/// The result of an addition: the document of the answer, as stored.
pub fn add_document(exchange: Exchange<DocumentResponse>) -> (result: Result<
    DocumentResponse,
    Error,
>)
    requires
        exchange.is_settled(),
    ensures
        match exchange {
            Exchange::NoClient { cause } => result matches Err(error) && error@ == (
            ErrorView::Reqwest { msg: "Cannot request list documents"@, source: cause.message@ }),
            Exchange::Failed { cause } => result matches Err(error) && error@ == (
            ErrorView::Reqwest { msg: "Foo"@, source: cause.message@ }),
            Exchange::Answered { data } => result == Ok::<DocumentResponse, Error>(data->Some_0),
        },
{
    exchange.settle("Cannot request list documents", "Foo")
}

} // verus!
