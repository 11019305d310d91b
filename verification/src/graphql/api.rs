//! The shapes that the GraphQL API takes and gives, and the resolvers: each
//! turns its input into a request on the storage port and the port's
//! answer into a response or a refusal.

use vstd::prelude::*;
use vstd::std_specs::convert::FromSpecImpl;
use vstd::string::*;

use crate::model;
use crate::model::document::{texts, views, Document, DocumentView, Genre, Timestamp};
use crate::model::error::{Error as ModelError, ErrorView as ModelErrorView, StorageErrorKind};
use crate::ports::primary::storage::DocumentStorage;
use crate::ports::secondary::storage::{find, has_id, holds_one_more, page, valid_collection};

verus! {

/// What the HTTP transport reported when a request failed.
#[derive(Debug, PartialEq, Eq)]
pub struct TransportError {
    pub message: String,
}

/// The adapter's error: a failure, and the adapter's word on what it was
/// doing when the failure came.
#[derive(Debug, PartialEq, Eq)]
#[allow(inconsistent_fields)]
pub enum Error {
    Model { msg: String, source: ModelError },
    Reqwest { msg: String, source: TransportError },
}

/// What an `Error` holds.
#[allow(inconsistent_fields)]
pub enum ErrorView {
    Model { msg: Seq<char>, source: ModelErrorView },
    Reqwest { msg: Seq<char>, source: Seq<char> },
}

impl View for Error {
    type V = ErrorView;

    open spec fn view(&self) -> ErrorView {
        match self {
            Error::Model { msg, source } => ErrorView::Model { msg: msg@, source: source@ },
            Error::Reqwest { msg, source } => ErrorView::Reqwest {
                msg: msg@,
                source: source.message@,
            },
        }
    }
}

/// The error that a resolver hands to the GraphQL server: the message that
/// the client reads, and the `reason` that the response carries among its
/// extensions for programs to read.
#[derive(Debug, PartialEq, Eq)]
pub struct FieldError {
    pub message: String,
    pub reason: String,
}

/// What a `FieldError` holds.
pub struct FieldErrorView {
    pub message: Seq<char>,
    pub reason: Seq<char>,
}

impl View for FieldError {
    type V = FieldErrorView;

    open spec fn view(&self) -> FieldErrorView {
        FieldErrorView { message: self.message@, reason: self.reason@ }
    }
}

impl ErrorView {
    /// The text that describes the error: the adapter's word, then the
    /// failure's own text.
    pub open spec fn message(self) -> Seq<char> {
        match self {
            ErrorView::Model { msg, source } => "Model Error: "@ + msg + " - "@ + source.message(),
            ErrorView::Reqwest { msg, source } => "Request Error: "@ + msg + " - "@ + source,
        }
    }

    /// The adapter's word alone.
    pub open spec fn reason(self) -> Seq<char> {
        match self {
            ErrorView::Model { msg, .. } => msg,
            ErrorView::Reqwest { msg, .. } => msg,
        }
    }

    /// The error as the GraphQL server gets it.
    pub open spec fn extended(self) -> FieldErrorView {
        FieldErrorView { message: self.message(), reason: self.reason() }
    }
}

impl Error {
    /// The text that describes the error.
    pub fn message(&self) -> (text: String)
        ensures
            text@ == self@.message(),
    {
        match self {
            Error::Model { msg, source } => {
                let mut text = String::from_str("Model Error: ");
                text.append(msg.as_str());
                text.append(" - ");
                text.append(source.message().as_str());
                text
            },
            Error::Reqwest { msg, source } => {
                let mut text = String::from_str("Request Error: ");
                text.append(msg.as_str());
                text.append(" - ");
                text.append(source.message.as_str());
                text
            },
        }
    }

    /// The error as the GraphQL server gets it: its message, and the
    /// adapter's word as the `reason`.
    pub fn extend(&self) -> (extended: FieldError)
        ensures
            extended@ == self@.extended(),
    {
        let reason = match self {
            Error::Model { msg, .. } => msg.clone(),
            Error::Reqwest { msg, .. } => msg.clone(),
        };
        FieldError { message: self.message(), reason }
    }
}

/// The input that asks for a page of the documents.
#[derive(Debug, Clone, Copy, PartialEq, Eq, Structural)]
pub struct ListDocumentsRequest {
    pub offset: u32,
    pub limit: u32,
}

impl ListDocumentsRequest {
    /// The request in the domain's terms, field for field.
    pub open spec fn in_domain(self) -> model::document::ListDocumentsRequest {
        model::document::ListDocumentsRequest { offset: self.offset, limit: self.limit }
    }
}

impl From<ListDocumentsRequest> for model::document::ListDocumentsRequest {
    fn from(request: ListDocumentsRequest) -> (converted: Self) {
        let ListDocumentsRequest { offset, limit } = request;
        model::document::ListDocumentsRequest { offset, limit }
    }
}

impl FromSpecImpl<ListDocumentsRequest> for model::document::ListDocumentsRequest {
    open spec fn obeys_from_spec() -> bool {
        true
    }

    open spec fn from_spec(request: ListDocumentsRequest) -> Self {
        request.in_domain()
    }
}

/// The input that asks for one document.
#[derive(Debug, Clone, Copy, PartialEq, Eq, Structural)]
pub struct GetDocumentRequest {
    pub id: u128,
}

impl GetDocumentRequest {
    /// The request in the domain's terms, field for field.
    pub open spec fn in_domain(self) -> model::document::GetDocumentRequest {
        model::document::GetDocumentRequest { id: self.id }
    }
}

impl From<GetDocumentRequest> for model::document::GetDocumentRequest {
    fn from(request: GetDocumentRequest) -> (converted: Self) {
        let GetDocumentRequest { id } = request;
        model::document::GetDocumentRequest { id }
    }
}

impl FromSpecImpl<GetDocumentRequest> for model::document::GetDocumentRequest {
    open spec fn obeys_from_spec() -> bool {
        true
    }

    open spec fn from_spec(request: GetDocumentRequest) -> Self {
        request.in_domain()
    }
}

/// The input that asks to add a document. The genre comes as text.
#[derive(Debug, PartialEq, Eq)]
pub struct AddDocumentRequest {
    pub id: u128,
    pub title: String,
    pub outline: String,
    pub content: String,
    pub html: String,
    pub tags: Vec<String>,
    pub genre: String,
}

impl AddDocumentRequest {
    /// The request in the domain's terms: field for field, but for the
    /// genre, whose text is read as a genre; one that names none reads as
    /// `Tbd`.
    pub open spec fn in_domain(self) -> model::document::AddDocumentRequest {
        model::document::AddDocumentRequest {
            id: self.id,
            title: self.title,
            outline: self.outline,
            content: self.content,
            html: self.html,
            tags: self.tags,
            genre: Genre::parsed(self.genre@),
        }
    }
}

impl From<AddDocumentRequest> for model::document::AddDocumentRequest {
    fn from(request: AddDocumentRequest) -> (converted: Self) {
        let AddDocumentRequest { id, title, outline, content, html, tags, genre } = request;
        let genre = Genre::from_str(genre.as_str()).unwrap();
        model::document::AddDocumentRequest { id, title, outline, content, html, tags, genre }
    }
}

impl FromSpecImpl<AddDocumentRequest> for model::document::AddDocumentRequest {
    open spec fn obeys_from_spec() -> bool {
        true
    }

    open spec fn from_spec(request: AddDocumentRequest) -> Self {
        request.in_domain()
    }
}

/// A document as the API gives it: the domain's document, with the genre
/// by its name.
#[derive(Debug, PartialEq, Eq)]
pub struct DocumentResponse {
    pub id: u128,
    pub title: String,
    pub outline: String,
    pub content: String,
    pub html: String,
    pub tags: Vec<String>,
    pub genre: String,
    pub created_at: Timestamp,
    pub updated_at: Timestamp,
}

/// What a `DocumentResponse` holds.
pub struct DocumentResponseView {
    pub id: u128,
    pub title: Seq<char>,
    pub outline: Seq<char>,
    pub content: Seq<char>,
    pub html: Seq<char>,
    pub tags: Seq<Seq<char>>,
    pub genre: Seq<char>,
    pub created_at: Timestamp,
    pub updated_at: Timestamp,
}

impl View for DocumentResponse {
    type V = DocumentResponseView;

    open spec fn view(&self) -> DocumentResponseView {
        DocumentResponseView {
            id: self.id,
            title: self.title@,
            outline: self.outline@,
            content: self.content@,
            html: self.html@,
            tags: texts(self.tags@),
            genre: self.genre@,
            created_at: self.created_at,
            updated_at: self.updated_at,
        }
    }
}

/// The response that shows a document.
pub open spec fn shown(document: DocumentView) -> DocumentResponseView {
    DocumentResponseView {
        id: document.id,
        title: document.title,
        outline: document.outline,
        content: document.content,
        html: document.html,
        tags: document.tags,
        genre: document.genre.name(),
        created_at: document.created_at,
        updated_at: document.updated_at,
    }
}

impl DocumentResponse {
    pub fn id(&self) -> (id: &u128)
        ensures
            *id == self.id,
    {
        &self.id
    }

    pub fn title(&self) -> (title: &String)
        ensures
            *title == self.title,
    {
        &self.title
    }

    pub fn outline(&self) -> (outline: &String)
        ensures
            *outline == self.outline,
    {
        &self.outline
    }

    pub fn content(&self) -> (content: &String)
        ensures
            *content == self.content,
    {
        &self.content
    }

    pub fn html(&self) -> (html: &String)
        ensures
            *html == self.html,
    {
        &self.html
    }

    pub fn tags(&self) -> (tags: &Vec<String>)
        ensures
            *tags == self.tags,
    {
        &self.tags
    }

    pub fn genre(&self) -> (genre: &String)
        ensures
            *genre == self.genre,
    {
        &self.genre
    }

    pub fn created_at(&self) -> (created_at: &Timestamp)
        ensures
            *created_at == self.created_at,
    {
        &self.created_at
    }

    pub fn updated_at(&self) -> (updated_at: &Timestamp)
        ensures
            *updated_at == self.updated_at,
    {
        &self.updated_at
    }
}

impl From<Document> for DocumentResponse {
    fn from(document: Document) -> (response: DocumentResponse)
        ensures
            response@ == shown(document@),
    {
        let Document {
            id,
            title,
            outline,
            content,
            html,
            tags,
            genre,
            created_at,
            updated_at,
        } = document;
        DocumentResponse {
            id,
            title,
            outline,
            content,
            html,
            tags,
            genre: String::from_str(genre.as_str()),
            created_at,
            updated_at,
        }
    }
}

/// `from` writes the genre's name anew, so its contract speaks of what the
/// response holds, and no response is singled out here.
impl FromSpecImpl<Document> for DocumentResponse {
    open spec fn obeys_from_spec() -> bool {
        false
    }

    open spec fn from_spec(document: Document) -> DocumentResponse {
        choose|response: DocumentResponse| response@ == shown(document@)
    }
}

/// The views of a sequence of responses.
pub open spec fn response_views(responses: Seq<DocumentResponse>) -> Seq<DocumentResponseView> {
    responses.map_values(|r: DocumentResponse| r@)
}

/// The answer to a listing: the documents of the page and their number.
#[derive(Debug, PartialEq, Eq)]
pub struct ListDocumentsResponse {
    pub documents: Vec<DocumentResponse>,
    pub count: usize,
}

/// What a `ListDocumentsResponse` holds.
pub struct ListDocumentsResponseView {
    pub documents: Seq<DocumentResponseView>,
    pub count: nat,
}

impl View for ListDocumentsResponse {
    type V = ListDocumentsResponseView;

    open spec fn view(&self) -> ListDocumentsResponseView {
        ListDocumentsResponseView {
            documents: response_views(self.documents@),
            count: self.count as nat,
        }
    }
}

/// The response that shows a page of documents, each in its place.
pub open spec fn listing(documents: Seq<DocumentView>) -> ListDocumentsResponseView {
    ListDocumentsResponseView {
        documents: documents.map_values(|d: DocumentView| shown(d)),
        count: documents.len(),
    }
}

impl ListDocumentsResponse {
    pub fn documents(&self) -> (documents: &Vec<DocumentResponse>)
        ensures
            *documents == self.documents,
    {
        &self.documents
    }

    pub fn count(&self) -> (count: &usize)
        ensures
            *count == self.count,
    {
        &self.count
    }
}

impl From<Vec<Document>> for ListDocumentsResponse {
    fn from(documents: Vec<Document>) -> (response: ListDocumentsResponse)
        ensures
            response@ == listing(views(documents@)),
    {
        let ghost all = documents@;
        let mut responses: Vec<DocumentResponse> = Vec::new();
        for document in iter: documents
            invariant
                iter.seq() == all,
                responses@.len() == iter.index(),
                forall|k: int|
                    0 <= k < iter.index() ==> (#[trigger] responses@[k])@ == shown(all[k]@),
        {
            responses.push(DocumentResponse::from(document));
        }
        let count: usize = responses.len();
        let response = ListDocumentsResponse { documents: responses, count };
        assert(response@.documents =~= listing(views(all)).documents);
        response
    }
}

/// `from` builds each response anew, so its contract speaks of what the
/// listing holds, and no listing is singled out here.
impl FromSpecImpl<Vec<Document>> for ListDocumentsResponse {
    open spec fn obeys_from_spec() -> bool {
        false
    }

    open spec fn from_spec(documents: Vec<Document>) -> ListDocumentsResponse {
        choose|response: ListDocumentsResponse| response@ == listing(views(documents@))
    }
}

/// The answer to a fetch: the document.
#[derive(Debug, PartialEq, Eq)]
pub struct GetDocumentResponse {
    pub document: DocumentResponse,
}

impl GetDocumentResponse {
    pub fn document(&self) -> (document: &DocumentResponse)
        ensures
            *document == self.document,
    {
        &self.document
    }
}

impl From<Document> for GetDocumentResponse {
    fn from(document: Document) -> (response: GetDocumentResponse)
        ensures
            response.document@ == shown(document@),
    {
        GetDocumentResponse { document: DocumentResponse::from(document) }
    }
}

/// `from` builds the response anew, so its contract speaks of what the
/// answer holds, and no answer is singled out here.
impl FromSpecImpl<Document> for GetDocumentResponse {
    open spec fn obeys_from_spec() -> bool {
        false
    }

    open spec fn from_spec(document: Document) -> GetDocumentResponse {
        choose|response: GetDocumentResponse| response.document@ == shown(document@)
    }
}

/// The refusal of a request on which the storage port failed: the
/// adapter's error, with the adapter's word on the request, as the GraphQL
/// server gets it.
pub open spec fn refusal(msg: Seq<char>, source: ModelErrorView) -> FieldErrorView {
    (ErrorView::Model { msg, source }).extended()
}

/// Wraps a failure of the storage port for the GraphQL server.
fn refuse(msg: &str, source: ModelError) -> (refused: FieldError)
    ensures
        refused@ == refusal(msg@, source@),
{
    let error = Error::Model { msg: String::from_str(msg), source };
    error.extend()
}

/// The root of the queries.
#[derive(Debug, Clone, Copy, PartialEq, Eq, Structural)]
pub struct Query;

impl Query {
    /// The reply to a listing, from what the storage port answered.
    pub fn list_documents_reply(outcome: Result<Vec<Document>, ModelError>) -> (reply: Result<
        ListDocumentsResponse,
        FieldError,
    >)
        ensures
            match outcome {
                Ok(documents) => reply matches Ok(response) && response@ == listing(
                    views(documents@),
                ),
                Err(error) => reply matches Err(refused) && refused@ == refusal(
                    "Error Listing Documents"@,
                    error@,
                ),
            },
    {
        match outcome {
            Ok(documents) => Ok(ListDocumentsResponse::from(documents)),
            Err(error) => Err(refuse("Error Listing Documents", error)),
        }
    }

    /// The reply to a fetch, from what the storage port answered.
    pub fn get_document_reply(outcome: Result<Document, ModelError>) -> (reply: Result<
        GetDocumentResponse,
        FieldError,
    >)
        ensures
            match outcome {
                Ok(document) => reply matches Ok(response) && response.document@ == shown(
                    document@,
                ),
                Err(error) => reply matches Err(refused) && refused@ == refusal(
                    "Error Getting Document"@,
                    error@,
                ),
            },
    {
        match outcome {
            Ok(document) => Ok(GetDocumentResponse::from(document)),
            Err(error) => Err(refuse("Error Getting Document", error)),
        }
    }

    /// Lists a page of the documents of the service: the reply is the
    /// one that `list_documents_reply` makes of an answer of the service
    /// to the request in the domain's terms. So it shows a page of what
    /// the service holds, or wraps the service's failure.
    pub fn list_documents<S: DocumentStorage>(
        &self,
        service: &S,
        request: ListDocumentsRequest,
    ) -> (reply: Result<ListDocumentsResponse, FieldError>)
        ensures
            exists|outcome: Result<Vec<Document>, ModelError>|
                {
                    &&& #[trigger] call_ensures(
                        <S as DocumentStorage>::list_documents,
                        (service, &request.in_domain()),
                        outcome,
                    )
                    &&& call_ensures(Query::list_documents_reply, (outcome,), reply)
                },
            valid_collection(service.documents()),
            match reply {
                Ok(response) => response@ == listing(
                    page(service.documents(), request.offset, request.limit),
                ),
                Err(refused) => exists|source: ModelErrorView|
                    refused@ == #[trigger] refusal("Error Listing Documents"@, source),
            },
    {
        let outcome = service.list_documents(&model::document::ListDocumentsRequest::from(request));
        proof {
            if outcome is Err {
                let source = outcome->Err_0@;
                assert(refusal("Error Listing Documents"@, source) == refusal("Error Listing Documents"@, source));
            }
        }
        Query::list_documents_reply(outcome)
    }

    /// Fetches the document that the service holds under the id: the
    /// reply is the one that `get_document_reply` makes of an answer of
    /// the service to the request in the domain's terms. So it shows the
    /// document found under the id, or wraps the service's failure, which
    /// says that the document is missing only where the service holds
    /// none under the id.
    pub fn get_document<S: DocumentStorage>(&self, service: &S, request: GetDocumentRequest) -> (reply:
        Result<GetDocumentResponse, FieldError>)
        ensures
            exists|outcome: Result<Document, ModelError>|
                {
                    &&& #[trigger] call_ensures(
                        <S as DocumentStorage>::get_document,
                        (service, &request.in_domain()),
                        outcome,
                    )
                    &&& call_ensures(Query::get_document_reply, (outcome,), reply)
                },
            valid_collection(service.documents()),
            !has_id(service.documents(), request.id) ==> reply is Err,
            match reply {
                Ok(response) => {
                    &&& find(service.documents(), request.id) matches Some(document)
                    &&& response.document@ == shown(document)
                },
                Err(refused) => exists|source: ModelErrorView|
                    {
                        &&& refused@ == #[trigger] refusal("Error Getting Document"@, source)
                        &&& source.kind() == StorageErrorKind::NotFound ==> !has_id(
                            service.documents(),
                            request.id,
                        )
                    },
            },
    {
        let outcome = service.get_document(&model::document::GetDocumentRequest::from(request));
        proof {
            if outcome is Err {
                let source = outcome->Err_0@;
                assert(refusal("Error Getting Document"@, source) == refusal("Error Getting Document"@, source));
            }
        }
        Query::get_document_reply(outcome)
    }
}

/// The root of the mutations.
#[derive(Debug, Clone, Copy, PartialEq, Eq, Structural)]
pub struct Mutation;

impl Mutation {
    /// The reply to an addition, from what the storage port answered.
    pub fn add_document_reply(outcome: Result<Document, ModelError>) -> (reply: Result<
        DocumentResponse,
        FieldError,
    >)
        ensures
            match outcome {
                Ok(document) => reply matches Ok(response) && response@ == shown(document@),
                Err(error) => reply matches Err(refused) && refused@ == refusal(
                    "Error Adding Document"@,
                    error@,
                ),
            },
    {
        match outcome {
            Ok(document) => Ok(DocumentResponse::from(document)),
            Err(error) => Err(refuse("Error Adding Document", error)),
        }
    }

    /// Adds a document to those of the service, its genre read from the
    /// text of the input: the reply is the one that `add_document_reply`
    /// makes of an answer of the service to the request in the domain's
    /// terms, the service being before and after the call as the
    /// resolver found and leaves it. So it shows the document as stored,
    /// or wraps the service's failure and leaves the service as it was;
    /// the failure says that the id is taken only where it is.
    pub fn add_document<S: DocumentStorage>(
        &self,
        service: &mut S,
        request: AddDocumentRequest,
    ) -> (reply: Result<DocumentResponse, FieldError>)
        ensures
            exists|backend: &mut S, outcome: Result<Document, ModelError>|
                {
                    &&& mut_ref_current(backend) == *old(service)
                    &&& mut_ref_future(backend) == *final(service)
                    &&& #[trigger] call_ensures(
                        <S as DocumentStorage>::add_document,
                        (backend, &request.in_domain()),
                        outcome,
                    )
                    &&& call_ensures(Mutation::add_document_reply, (outcome,), reply)
                },
            valid_collection(old(service).documents()),
            valid_collection(final(service).documents()),
            match reply {
                Ok(response) => {
                    let document = request.in_domain()@.stored(
                        response.created_at,
                        response.updated_at,
                    );
                    &&& response@ == shown(document)
                    &&& !has_id(old(service).documents(), request.id)
                    &&& response.created_at.not_after(response.updated_at)
                    &&& holds_one_more(
                        old(service).documents(),
                        final(service).documents(),
                        document,
                    )
                },
                Err(refused) => {
                    &&& final(service).documents() == old(service).documents()
                    &&& exists|source: ModelErrorView|
                        {
                            &&& refused@ == #[trigger] refusal("Error Adding Document"@, source)
                            &&& source.kind() == StorageErrorKind::UniqueViolation ==> has_id(
                                old(service).documents(),
                                request.id,
                            )
                        }
                },
            },
    {
        let outcome = service.add_document(&model::document::AddDocumentRequest::from(request));
        proof {
            if outcome is Err {
                let source = outcome->Err_0@;
                assert(refusal("Error Adding Document"@, source) == refusal(
                    "Error Adding Document"@,
                    source,
                ));
            } else {
                let document = outcome->Ok_0;
                assert(document@ == document@.request().stored(
                    document.created_at,
                    document.updated_at,
                ));
            }
        }
        Mutation::add_document_reply(outcome)
    }
}

} // verus!
