//! A storage backend that keeps its documents in memory, in the order in
//! which they were added.

use vstd::prelude::*;

use crate::model::document::{
    lemma_views_push, views, AddDocumentRequest, AddDocumentRequestView, Document, DocumentView,
    GetDocumentRequest, ListDocumentsRequest, Timestamp,
};
use crate::model::error::{Error, ErrorView, StorageErrorKind, StorageErrorView};
use crate::ports::secondary::storage::{
    find, has_id, holds_one_more, lemma_one_more_is_found, valid_collection, DocumentStorage,
};

verus! {

/// The documents of an in-memory store, with the instant that the store
/// takes for the present when it stamps a new document.
#[derive(Debug)]
pub struct MemoryStorage {
    documents: Vec<Document>,
    now: Timestamp,
}

impl MemoryStorage {
    #[verifier::type_invariant]
    spec fn valid(&self) -> bool {
        valid_collection(views(self.documents@))
    }

    /// The instant with which the store stamps the next document.
    pub closed spec fn now(&self) -> Timestamp {
        self.now
    }

    /// A store that holds no document.
    pub fn new(now: Timestamp) -> (storage: MemoryStorage)
        ensures
            storage.documents() == Seq::<DocumentView>::empty(),
            storage.now() == now,
    {
        let storage = MemoryStorage { documents: Vec::new(), now };
        assert(views(storage.documents@) =~= Seq::<DocumentView>::empty());
        storage
    }

    /// Tells the store what the present is.
    pub fn set_now(&mut self, now: Timestamp)
        ensures
            final(self).documents() == old(self).documents(),
            final(self).now() == now,
    {
        proof {
            use_type_invariant(&*self);
        }
        self.now = now;
    }

    /// The number of documents that the store holds.
    pub fn len(&self) -> (count: usize)
        ensures
            count == self.documents().len(),
    {
        self.documents.len()
    }

    /// The place of the document with the given id.
    fn position(&self, id: u128) -> (place: Option<usize>)
        ensures
            match place {
                Some(i) => {
                    &&& i < self.documents@.len()
                    &&& self.documents@[i as int].id == id
                    &&& has_id(self.documents(), id)
                },
                None => !has_id(self.documents(), id),
            },
    {
        let mut i: usize = 0;
        while i < self.documents.len()
            invariant
                i <= self.documents@.len(),
                forall|k: int| 0 <= k < i ==> self.documents@[k].id != id,
            decreases self.documents@.len() - i,
        {
            if self.documents[i].id == id {
                assert(self.documents()[i as int].id == id);
                return Some(i);
            }
            i += 1;
        }
        assert forall|k: int| 0 <= k < self.documents().len() implies (
        #[trigger] self.documents()[k]).id != id by {
            assert(self.documents()[k] == self.documents@[k]@);
        }
        None
    }
}

/// In an in-memory store, a document that is added under a free id, at
/// whatever instant, is from then on the one found under its id: its
/// fields are those of the request, and it was not updated before it was
/// created. The store then holds it beside those it held, its id is
/// taken, and the store is as valid as it was.
pub proof fn lemma_stored_document_is_found(
    held: Seq<DocumentView>,
    request: AddDocumentRequestView,
    now: Timestamp,
)
    requires
        valid_collection(held),
        !has_id(held, request.id),
    ensures
        ({
            let document = request.stored(now, now);
            let after = held.push(document);
            &&& holds_one_more(held, after, document)
            &&& valid_collection(after)
            &&& has_id(after, request.id)
            &&& find(after, request.id) == Some(document)
            &&& document.request() == request
            &&& document.created_at.not_after(document.updated_at)
        }),
{
    let document = request.stored(now, now);
    let after = held.push(document);
    assert(after =~= held.insert(held.len() as int, document));
    lemma_one_more_is_found(held, after, document);
}

impl DocumentStorage for MemoryStorage {
    closed spec fn documents(&self) -> Seq<DocumentView> {
        views(self.documents@)
    }

    /// Never fails.
    fn list_documents(&self, request: &ListDocumentsRequest) -> (result: Result<
        Vec<Document>,
        Error,
    >)
        ensures
            result is Ok,
    {
        proof {
            use_type_invariant(self);
        }
        let count: usize = self.documents.len();
        let start: usize = if (request.offset as u64) <= count as u64 {
            request.offset as usize
        } else {
            count
        };
        let reach: u64 = request.offset as u64 + request.limit as u64;
        let end: usize = if reach <= count as u64 {
            reach as usize
        } else {
            count
        };
        let mut listed: Vec<Document> = Vec::new();
        let mut i: usize = start;
        while i < end
            invariant
                start <= i <= end <= self.documents@.len(),
                views(listed@) == views(self.documents@).subrange(start as int, i as int),
            decreases end - i,
        {
            let document = self.documents[i].clone();
            proof {
                lemma_views_push(listed@, document);
                assert(views(self.documents@)[i as int] == document@);
                assert(views(self.documents@).subrange(start as int, i + 1) =~= views(
                    self.documents@,
                ).subrange(start as int, i as int).push(document@));
            }
            listed.push(document);
            i += 1;
        }
        Ok(listed)
    }

    /// Fails where the id is taken, with `UniqueViolation`, and nowhere
    /// else. The document is stamped with the store's present, and is
    /// listed after those that the store held.
    fn add_document(&mut self, request: &AddDocumentRequest) -> (result: Result<Document, Error>)
        ensures
            final(self).now() == old(self).now(),
            result is Err <==> has_id(old(self).documents(), request.id),
            match result {
                Ok(document) => {
                    &&& document@ == request@.stored(old(self).now(), old(self).now())
                    &&& final(self).documents() == old(self).documents().push(document@)
                },
                Err(error) => {
                    error@ == (ErrorView::Storage {
                        source: StorageErrorView {
                            kind: StorageErrorKind::UniqueViolation,
                            message: "Operation violates uniqueness constraint: the id is taken"@,
                        },
                    })
                },
            },
    {
        proof {
            use_type_invariant(&*self);
        }
        match self.position(request.id) {
            Some(_) => Err(
                Error::storage(
                    StorageErrorKind::UniqueViolation,
                    "Operation violates uniqueness constraint: the id is taken",
                ),
            ),
            None => {
                let tags = request.tags.clone();
                assert(tags@ =~= request.tags@);
                let document = Document {
                    id: request.id,
                    title: request.title.clone(),
                    outline: request.outline.clone(),
                    content: request.content.clone(),
                    html: request.html.clone(),
                    tags,
                    genre: request.genre,
                    created_at: self.now,
                    updated_at: self.now,
                };
                let stored = document.clone();
                let ghost before = views(self.documents@);
                proof {
                    lemma_views_push(self.documents@, document);
                    lemma_stored_document_is_found(before, request@, self.now);
                }
                let mut held: Vec<Document> = Vec::new();
                assert(views(held@) =~= Seq::<DocumentView>::empty());
                std::mem::swap(&mut self.documents, &mut held);
                held.push(document);
                std::mem::swap(&mut self.documents, &mut held);
                Ok(stored)
            },
        }
    }

    /// Fails where no document has the id, with `NotFound`, and nowhere
    /// else.
    fn get_document(&self, request: &GetDocumentRequest) -> (result: Result<Document, Error>)
        ensures
            result is Ok <==> has_id(self.documents(), request.id),
            result matches Err(error) ==> error@ == (ErrorView::Storage {
                source: StorageErrorView {
                    kind: StorageErrorKind::NotFound,
                    message: "Entity does not exist"@,
                },
            }),
    {
        proof {
            use_type_invariant(self);
        }
        match self.position(request.id) {
            Some(i) => {
                let document = self.documents[i].clone();
                proof {
                    let held = self.documents();
                    assert(held[i as int] == self.documents@[i as int]@);
                    let k = choose|k: int| 0 <= k < held.len() && (#[trigger] held[k]).id == request.id;
                    assert(k == i);
                }
                Ok(document)
            },
            None => Err(Error::storage(StorageErrorKind::NotFound, "Entity does not exist")),
        }
    }
}

} // verus!
