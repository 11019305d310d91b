//! The storage port: the three operations that every storage backend
//! offers, stated over the sequence of documents that the backend holds.

use vstd::prelude::*;

use crate::model::document::{
    views, AddDocumentRequest, AddDocumentRequestView, Document, DocumentView, GetDocumentRequest,
    ListDocumentsRequest,
};
use crate::model::error::{Error, StorageErrorKind};

verus! {

/// Some document of the collection has the given id.
pub open spec fn has_id(documents: Seq<DocumentView>, id: u128) -> bool {
    exists|i: int| 0 <= i < documents.len() && (#[trigger] documents[i]).id == id
}

/// No two documents of the collection share an id.
pub open spec fn unique_ids(documents: Seq<DocumentView>) -> bool {
    forall|i: int, j: int|
        0 <= i < documents.len() && 0 <= j < documents.len() && i != j ==> (
        #[trigger] documents[i]).id != (#[trigger] documents[j]).id
}

/// What holds of the documents of every backend: ids are unique, and no
/// document was updated before it was created.
pub open spec fn valid_collection(documents: Seq<DocumentView>) -> bool {
    &&& unique_ids(documents)
    &&& forall|i: int|
        0 <= i < documents.len() ==> (#[trigger] documents[i]).created_at.not_after(
            documents[i].updated_at,
        )
}

/// The document with the given id, if the collection has one.
pub open spec fn find(documents: Seq<DocumentView>, id: u128) -> Option<DocumentView> {
    if has_id(documents, id) {
        Some(documents[choose|i: int| 0 <= i < documents.len() && (#[trigger] documents[i]).id == id])
    } else {
        None
    }
}

/// The items of a listing from the zero-based `offset` on, `limit` of them
/// at most.
pub open spec fn page<T>(items: Seq<T>, offset: u32, limit: u32) -> Seq<T> {
    let start = if offset <= items.len() { offset as int } else { items.len() as int };
    let end = if offset + limit <= items.len() { offset + limit } else { items.len() as int };
    items.subrange(start, end)
}

/// The collection with one more document, at a place of the backend's
/// choosing among those it held.
pub open spec fn holds_one_more(
    before: Seq<DocumentView>,
    after: Seq<DocumentView>,
    document: DocumentView,
) -> bool {
    exists|i: int| 0 <= i <= before.len() && after == #[trigger] before.insert(i, document)
}

/// What a backend may answer when asked to list: a page of what it holds,
/// or a failure.
pub open spec fn answers_list(
    documents: Seq<DocumentView>,
    request: ListDocumentsRequest,
    result: Result<Vec<Document>, Error>,
) -> bool {
    result matches Ok(listed) ==> views(listed@) == page(documents, request.offset, request.limit)
}

/// What a backend may answer when asked to add: the document as stored,
/// which it then holds beside those it held, and only where the id was
/// free; or a failure, which leaves what it held, and which speaks of a
/// taken id only where the id was taken.
pub open spec fn answers_add(
    before: Seq<DocumentView>,
    after: Seq<DocumentView>,
    request: AddDocumentRequestView,
    result: Result<Document, Error>,
) -> bool {
    match result {
        Ok(document) => {
            &&& !has_id(before, request.id)
            &&& document@.request() == request
            &&& document@.created_at.not_after(document@.updated_at)
            &&& holds_one_more(before, after, document@)
        },
        Err(error) => {
            &&& after == before
            &&& error@.kind() == StorageErrorKind::UniqueViolation ==> has_id(before, request.id)
        },
    }
}

/// What a backend may answer when asked for one document: the document
/// that it holds under that id, or a failure, which speaks of a missing
/// document only where none has the id.
pub open spec fn answers_get(
    documents: Seq<DocumentView>,
    request: GetDocumentRequest,
    result: Result<Document, Error>,
) -> bool {
    match result {
        Ok(document) => find(documents, request.id) == Some(document@),
        Err(error) => error@.kind() == StorageErrorKind::NotFound ==> !has_id(
            documents,
            request.id,
        ),
    }
}

/// A page is a run of the listing, no longer than the limit, and starts at
/// the offset where the listing reaches that far.
pub proof fn lemma_page_is_a_run<T>(items: Seq<T>, offset: u32, limit: u32)
    ensures
        page(items, offset, limit).len() <= limit,
        page(items, offset, limit).len() <= items.len(),
        forall|k: int|
            0 <= k < page(items, offset, limit).len() ==> #[trigger] page(items, offset, limit)[k]
                == items[offset + k],
        offset + limit <= items.len() ==> page(items, offset, limit).len() == limit,
        offset >= items.len() ==> page(items, offset, limit).len() == 0,
{
}

/// A page and the page that begins where it ends make up the one page of
/// both their lengths: pages that follow each other pass over no item
/// and show none twice.
pub proof fn lemma_pages_follow<T>(items: Seq<T>, offset: u32, first: u32, second: u32)
    requires
        offset + first + second <= u32::MAX,
    ensures
        page(items, offset, first) + page(items, (offset + first) as u32, second) == page(
            items,
            offset,
            (first + second) as u32,
        ),
{
    assert(page(items, offset, first) + page(items, (offset + first) as u32, second) =~= page(
        items,
        offset,
        (first + second) as u32,
    ));
}

/// Whatever the offset and the limit, the page of an empty listing is
/// empty.
pub proof fn lemma_page_of_nothing<T>(offset: u32, limit: u32)
    ensures
        page(Seq::<T>::empty(), offset, limit) == Seq::<T>::empty(),
{
    assert(page(Seq::<T>::empty(), offset, limit) =~= Seq::<T>::empty());
}

/// A collection that took one more document, under an id that was free,
/// holds every document that it held under the id that it had, holds the
/// new one under its id, and still has no id twice. It is valid where the
/// collection was and the new document was not updated before it was
/// created.
pub proof fn lemma_one_more_is_found(
    before: Seq<DocumentView>,
    after: Seq<DocumentView>,
    document: DocumentView,
)
    requires
        unique_ids(before),
        !has_id(before, document.id),
        holds_one_more(before, after, document),
    ensures
        unique_ids(after),
        find(after, document.id) == Some(document),
        forall|id: u128| id != document.id ==> find(after, id) == find(before, id),
        forall|id: u128| has_id(after, id) <==> id == document.id || has_id(before, id),
        valid_collection(before) && document.created_at.not_after(document.updated_at)
            ==> valid_collection(after),
{
    let place = choose|i: int| 0 <= i <= before.len() && after == #[trigger] before.insert(
        i,
        document,
    );
    assert(after[place] == document);
    assert forall|i: int, j: int|
        0 <= i < after.len() && 0 <= j < after.len() && i != j implies (#[trigger] after[i]).id != (
    #[trigger] after[j]).id by {
        lemma_inserted_index(before, place, document, i);
        lemma_inserted_index(before, place, document, j);
    }
    assert forall|id: u128| has_id(after, id) <==> id == document.id || has_id(before, id) by {
        if has_id(after, id) {
            let k = choose|k: int| 0 <= k < after.len() && (#[trigger] after[k]).id == id;
            lemma_inserted_index(before, place, document, k);
        }
        if has_id(before, id) {
            let k = choose|k: int| 0 <= k < before.len() && (#[trigger] before[k]).id == id;
            let moved = if k < place { k } else { k + 1 };
            assert(after[moved] == before[k]);
        }
    }
    assert forall|id: u128| has_id(after, id) implies {
        let k = choose|k: int| 0 <= k < after.len() && (#[trigger] after[k]).id == id;
        &&& id == document.id ==> after[k] == document
        &&& id != document.id ==> find(before, id) == Some(after[k])
    } by {
        let k = choose|k: int| 0 <= k < after.len() && (#[trigger] after[k]).id == id;
        lemma_inserted_index(before, place, document, k);
        if id != document.id {
            let origin = if k < place { k } else { k - 1 };
            assert(before[origin] == after[k]);
            let chosen = choose|c: int| 0 <= c < before.len() && (#[trigger] before[c]).id == id;
            assert(chosen == origin);
        } else {
            assert(k == place);
        }
    }
    assert(has_id(after, document.id));
    if valid_collection(before) && document.created_at.not_after(document.updated_at) {
        assert forall|i: int| 0 <= i < after.len() implies (#[trigger] after[i]).created_at.not_after(
            after[i].updated_at,
        ) by {
            lemma_inserted_index(before, place, document, i);
        }
    }
}

/// Each place of a sequence that took one more item holds the new item or
/// an item that the sequence held.
proof fn lemma_inserted_index(
    before: Seq<DocumentView>,
    place: int,
    document: DocumentView,
    k: int,
)
    requires
        0 <= place <= before.len(),
        0 <= k <= before.len(),
    ensures
        k < place ==> before.insert(place, document)[k] == before[k],
        k == place ==> before.insert(place, document)[k] == document,
        k > place ==> before.insert(place, document)[k] == before[k - 1],
{
}

/// A document that was added is the one that a later fetch by its id
/// brings back: its fields are those of the request, and it was not
/// updated before it was created. Such a fetch never finds the document
/// missing.
pub proof fn lemma_add_then_get(
    before: Seq<DocumentView>,
    after: Seq<DocumentView>,
    request: AddDocumentRequestView,
    added: Result<Document, Error>,
    fetched: Result<Document, Error>,
)
    requires
        valid_collection(before),
        answers_add(before, after, request, added),
        added is Ok,
        answers_get(after, GetDocumentRequest { id: request.id }, fetched),
    ensures
        fetched matches Ok(document) ==> {
            &&& document@ == added->Ok_0@
            &&& document@.request() == request
            &&& document@.created_at.not_after(document@.updated_at)
        },
        fetched matches Err(error) ==> error@.kind() != StorageErrorKind::NotFound,
{
    lemma_one_more_is_found(before, after, added->Ok_0@);
}

/// A fetch by an id that no document has brings no document back: it
/// fails, whatever the backend, and no document is made up for it.
pub proof fn lemma_missing_document_is_not_fetched(
    documents: Seq<DocumentView>,
    request: GetDocumentRequest,
    fetched: Result<Document, Error>,
)
    requires
        answers_get(documents, request, fetched),
        !has_id(documents, request.id),
    ensures
        fetched is Err,
{
}

/// Of two additions under one id, made one after the other, at most one
/// is accepted: once the first is, the second is refused and changes
/// nothing.
pub proof fn lemma_same_id_is_added_once(
    before: Seq<DocumentView>,
    between: Seq<DocumentView>,
    after: Seq<DocumentView>,
    first_request: AddDocumentRequestView,
    second_request: AddDocumentRequestView,
    first: Result<Document, Error>,
    second: Result<Document, Error>,
)
    requires
        valid_collection(before),
        first_request.id == second_request.id,
        answers_add(before, between, first_request, first),
        answers_add(between, after, second_request, second),
    ensures
        !(first is Ok && second is Ok),
        first is Ok ==> second is Err && after == between,
{
    if first is Ok {
        lemma_one_more_is_found(before, between, first->Ok_0@);
    }
}

/// What a storage backend offers. `documents` is what the backend holds, in
/// the order in which it lists them. Any call may fail (the backend cannot
/// be reached, stored data cannot be read): what is promised is what an
/// answer means.
pub trait DocumentStorage {
    spec fn documents(&self) -> Seq<DocumentView>;

    /// Lists one page of the documents. An empty page is no error.
    fn list_documents(&self, request: &ListDocumentsRequest) -> (result: Result<
        Vec<Document>,
        Error,
    >)
        ensures
            valid_collection(self.documents()),
            answers_list(self.documents(), *request, result),
    ;

    /// Stores a new document and returns it as stored. An id that is taken
    /// is never stored a second time.
    fn add_document(&mut self, request: &AddDocumentRequest) -> (result: Result<Document, Error>)
        ensures
            valid_collection(old(self).documents()),
            valid_collection(final(self).documents()),
            answers_add(old(self).documents(), final(self).documents(), request@, result),
    ;

    /// Fetches the document with the given id.
    fn get_document(&self, request: &GetDocumentRequest) -> (result: Result<Document, Error>)
        ensures
            valid_collection(self.documents()),
            answers_get(self.documents(), *request, result),
    ;
}

} // verus!
