//! The storage port as inbound adapters see it: every storage backend
//! serves it as it stands.

use vstd::prelude::*;

use crate::model::document::{
    AddDocumentRequest, Document, DocumentView, GetDocumentRequest, ListDocumentsRequest,
};
use crate::model::error::Error;
use crate::ports::secondary::storage::{answers_add, answers_get, answers_list, valid_collection};

verus! {

/// What an inbound adapter may ask of the document store. Each operation
/// has the contract of the backend's operation of the same name.
pub trait DocumentStorage {
    spec fn documents(&self) -> Seq<DocumentView>;

    fn list_documents(&self, request: &ListDocumentsRequest) -> (result: Result<
        Vec<Document>,
        Error,
    >)
        ensures
            valid_collection(self.documents()),
            answers_list(self.documents(), *request, result),
    ;

    fn add_document(&mut self, request: &AddDocumentRequest) -> (result: Result<Document, Error>)
        ensures
            valid_collection(old(self).documents()),
            valid_collection(final(self).documents()),
            answers_add(old(self).documents(), final(self).documents(), request@, result),
    ;

    fn get_document(&self, request: &GetDocumentRequest) -> (result: Result<Document, Error>)
        ensures
            valid_collection(self.documents()),
            answers_get(self.documents(), *request, result),
    ;
}

/// Every backend serves the inbound port by its own operations: what an
/// operation of the port answers is an answer of the backend's operation
/// of the same name to the same request, the failure that it reports
/// included. For the addition, that operation is one made on the backend
/// as it was before, which leaves it as it is after.
impl<T> DocumentStorage for T where T: crate::ports::secondary::storage::DocumentStorage {
    open spec fn documents(&self) -> Seq<DocumentView> {
        crate::ports::secondary::storage::DocumentStorage::documents(self)
    }

    fn list_documents(&self, request: &ListDocumentsRequest) -> (result: Result<
        Vec<Document>,
        Error,
    >)
        ensures
            call_ensures(
                <T as crate::ports::secondary::storage::DocumentStorage>::list_documents,
                (self, request),
                result,
            ),
    {
        crate::ports::secondary::storage::DocumentStorage::list_documents(self, request)
    }

    fn add_document(&mut self, request: &AddDocumentRequest) -> (result: Result<Document, Error>)
        ensures
            exists|backend: &mut T|
                {
                    &&& mut_ref_current(backend) == *old(self)
                    &&& mut_ref_future(backend) == *final(self)
                    &&& #[trigger] call_ensures(
                        <T as crate::ports::secondary::storage::DocumentStorage>::add_document,
                        (backend, request),
                        result,
                    )
                },
    {
        crate::ports::secondary::storage::DocumentStorage::add_document(self, request)
    }

    fn get_document(&self, request: &GetDocumentRequest) -> (result: Result<Document, Error>)
        ensures
            call_ensures(
                <T as crate::ports::secondary::storage::DocumentStorage>::get_document,
                (self, request),
                result,
            ),
    {
        crate::ports::secondary::storage::DocumentStorage::get_document(self, request)
    }
}

} // verus!
