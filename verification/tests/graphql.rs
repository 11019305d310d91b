use docstore::graphql::api::{
    AddDocumentRequest, DocumentResponse, Error, FieldError, GetDocumentRequest,
    GetDocumentResponse, ListDocumentsRequest, ListDocumentsResponse, Mutation, Query,
    TransportError,
};
use docstore::memory::MemoryStorage;
use docstore::model;
use docstore::model::document::{Document, Genre, Timestamp};
use docstore::model::error::{Error as ModelError, StorageErrorKind};

fn at(seconds: i64) -> Timestamp {
    Timestamp { seconds, nanoseconds: 0 }
}

fn input(id: u128, title: &str, genre: &str) -> AddDocumentRequest {
    AddDocumentRequest {
        id,
        title: title.to_string(),
        outline: "O".to_string(),
        content: "C".to_string(),
        html: "<p>C</p>".to_string(),
        tags: vec!["a".to_string(), "b".to_string()],
        genre: genre.to_string(),
    }
}

fn document(id: u128, genre: Genre) -> Document {
    Document {
        id,
        title: "T".to_string(),
        outline: "O".to_string(),
        content: "C".to_string(),
        html: "<p>C</p>".to_string(),
        tags: vec!["a".to_string(), "b".to_string()],
        genre,
        created_at: at(10),
        updated_at: at(20),
    }
}

#[test]
fn round_trip_through_the_api() {
    let id = uuid::Uuid::parse_str("11111111-1111-1111-1111-111111111111").unwrap().as_u128();
    let mut service = MemoryStorage::new(at(1_700_000_000));
    let added = Mutation
        .add_document(
            &mut service,
            AddDocumentRequest {
                id,
                title: "T".to_string(),
                outline: "O".to_string(),
                content: "C".to_string(),
                html: "<p>C</p>".to_string(),
                tags: vec!["a".to_string(), "b".to_string()],
                genre: "howto".to_string(),
            },
        )
        .unwrap();
    assert_eq!(added.id, id);
    let listed = Query
        .list_documents(&service, ListDocumentsRequest { offset: 0, limit: 10 })
        .unwrap();
    assert_eq!(listed.count, 1);
    assert_eq!(listed.documents.len(), 1);
    let entry = &listed.documents[0];
    assert_eq!(entry.genre, "howto");
    assert_eq!(entry.tags, vec!["a".to_string(), "b".to_string()]);
    assert_eq!(entry.id, 0x11111111_1111_1111_1111_111111111111);
    assert_eq!(entry.title, "T");
    assert_eq!(entry.outline, "O");
    assert_eq!(entry.content, "C");
    assert_eq!(entry.html, "<p>C</p>");
    assert_eq!(*entry, added);
}

#[test]
fn list_request_converts_field_for_field() {
    let converted =
        model::document::ListDocumentsRequest::from(ListDocumentsRequest { offset: 3, limit: 9 });
    assert_eq!(converted, model::document::ListDocumentsRequest { offset: 3, limit: 9 });
}

#[test]
fn get_request_converts_field_for_field() {
    let converted = model::document::GetDocumentRequest::from(GetDocumentRequest { id: 77 });
    assert_eq!(converted, model::document::GetDocumentRequest { id: 77 });
}

#[test]
fn add_request_converts_with_its_genre_read() {
    let converted = model::document::AddDocumentRequest::from(input(5, "five", "background"));
    assert_eq!(
        converted,
        model::document::AddDocumentRequest {
            id: 5,
            title: "five".to_string(),
            outline: "O".to_string(),
            content: "C".to_string(),
            html: "<p>C</p>".to_string(),
            tags: vec!["a".to_string(), "b".to_string()],
            genre: Genre::Background,
        }
    );
}

#[test]
fn add_request_with_an_unknown_genre_is_to_be_decided() {
    for text in ["unknown", "", "TUTORIAL", "to be decided"] {
        let converted = model::document::AddDocumentRequest::from(input(5, "five", text));
        assert_eq!(converted.genre, Genre::Tbd);
    }
}

#[test]
fn document_response_shows_the_document() {
    let response = DocumentResponse::from(document(4, Genre::Tutorial));
    assert_eq!(
        response,
        DocumentResponse {
            id: 4,
            title: "T".to_string(),
            outline: "O".to_string(),
            content: "C".to_string(),
            html: "<p>C</p>".to_string(),
            tags: vec!["a".to_string(), "b".to_string()],
            genre: "tutorial".to_string(),
            created_at: at(10),
            updated_at: at(20),
        }
    );
}

#[test]
fn document_response_names_each_genre() {
    assert_eq!(DocumentResponse::from(document(1, Genre::Howto)).genre, "howto");
    assert_eq!(DocumentResponse::from(document(1, Genre::Background)).genre, "background");
    assert_eq!(DocumentResponse::from(document(1, Genre::Reference)).genre, "reference");
    assert_eq!(DocumentResponse::from(document(1, Genre::Tbd)).genre, "to be decided");
}

#[test]
fn document_response_getters() {
    let response = DocumentResponse::from(document(4, Genre::Tutorial));
    assert_eq!(*response.id(), 4);
    assert_eq!(response.title(), "T");
    assert_eq!(response.outline(), "O");
    assert_eq!(response.content(), "C");
    assert_eq!(response.html(), "<p>C</p>");
    assert_eq!(*response.tags(), vec!["a".to_string(), "b".to_string()]);
    assert_eq!(response.genre(), "tutorial");
    assert_eq!(*response.created_at(), at(10));
    assert_eq!(*response.updated_at(), at(20));
}

#[test]
fn list_response_counts_its_documents() {
    let response = ListDocumentsResponse::from(vec![
        document(1, Genre::Howto),
        document(2, Genre::Tbd),
        document(3, Genre::Reference),
    ]);
    assert_eq!(response.count, 3);
    assert_eq!(*response.count(), 3);
    let ids: Vec<u128> = response.documents().iter().map(|d| d.id).collect();
    assert_eq!(ids, vec![1, 2, 3]);
    let genres: Vec<&str> = response.documents.iter().map(|d| d.genre.as_str()).collect();
    assert_eq!(genres, vec!["howto", "to be decided", "reference"]);
    let empty = ListDocumentsResponse::from(vec![]);
    assert_eq!(empty.count, 0);
    assert!(empty.documents.is_empty());
}

#[test]
fn get_response_holds_the_document() {
    let response = GetDocumentResponse::from(document(6, Genre::Reference));
    assert_eq!(response.document().id, 6);
    assert_eq!(response.document, DocumentResponse::from(document(6, Genre::Reference)));
}

#[test]
fn model_error_message_and_reason() {
    let error = Error::Model {
        msg: "Error Getting Document".to_string(),
        source: ModelError::storage(StorageErrorKind::NotFound, "Entity does not exist"),
    };
    assert_eq!(
        error.message(),
        "Model Error: Error Getting Document - Storage Error: Entity does not exist"
    );
    assert_eq!(
        error.extend(),
        FieldError {
            message: "Model Error: Error Getting Document - Storage Error: Entity does not exist"
                .to_string(),
            reason: "Error Getting Document".to_string(),
        }
    );
}

#[test]
fn request_error_message_and_reason() {
    let error = Error::Reqwest {
        msg: "Foo".to_string(),
        source: TransportError { message: "connection refused".to_string() },
    };
    assert_eq!(error.message(), "Request Error: Foo - connection refused");
    assert_eq!(error.extend().reason, "Foo");
}

#[test]
fn resolver_lists_a_page() {
    let mut service = MemoryStorage::new(at(1));
    for id in 0..4u128 {
        Mutation.add_document(&mut service, input(id, &format!("t{}", id), "reference")).unwrap();
    }
    let listed =
        Query.list_documents(&service, ListDocumentsRequest { offset: 1, limit: 2 }).unwrap();
    assert_eq!(listed.count, 2);
    let titles: Vec<&str> = listed.documents.iter().map(|d| d.title.as_str()).collect();
    assert_eq!(titles, vec!["t1", "t2"]);
}

#[test]
fn resolver_lists_nothing_from_an_empty_service() {
    let service = MemoryStorage::new(at(1));
    let listed =
        Query.list_documents(&service, ListDocumentsRequest { offset: 0, limit: 10 }).unwrap();
    assert_eq!(listed, ListDocumentsResponse { documents: vec![], count: 0 });
}

#[test]
fn resolver_gets_a_document() {
    let mut service = MemoryStorage::new(at(9));
    Mutation.add_document(&mut service, input(3, "three", "tutorial")).unwrap();
    let fetched = Query.get_document(&service, GetDocumentRequest { id: 3 }).unwrap();
    assert_eq!(fetched.document.title, "three");
    assert_eq!(fetched.document.genre, "tutorial");
    assert_eq!(fetched.document.created_at, at(9));
    assert_eq!(fetched.document.updated_at, at(9));
}

#[test]
fn resolver_refuses_a_missing_document() {
    let service = MemoryStorage::new(at(9));
    let refused = Query.get_document(&service, GetDocumentRequest { id: 3 }).unwrap_err();
    assert_eq!(
        refused,
        FieldError {
            message: "Model Error: Error Getting Document - Storage Error: Entity does not exist"
                .to_string(),
            reason: "Error Getting Document".to_string(),
        }
    );
}

#[test]
fn resolver_refuses_a_taken_id() {
    let mut service = MemoryStorage::new(at(9));
    Mutation.add_document(&mut service, input(3, "three", "tutorial")).unwrap();
    let refused = Mutation.add_document(&mut service, input(3, "again", "howto")).unwrap_err();
    assert_eq!(refused.reason, "Error Adding Document");
    assert_eq!(
        refused.message,
        "Model Error: Error Adding Document - Storage Error: Operation violates uniqueness \
         constraint: the id is taken"
    );
    let kept = Query.get_document(&service, GetDocumentRequest { id: 3 }).unwrap();
    assert_eq!(kept.document.title, "three");
}

#[test]
fn resolver_stores_an_unknown_genre_as_to_be_decided() {
    let mut service = MemoryStorage::new(at(9));
    let added = Mutation.add_document(&mut service, input(3, "three", "Howto")).unwrap();
    assert_eq!(added.genre, "to be decided");
}

#[test]
fn replies_wrap_what_the_port_answered() {
    let failure = || ModelError::storage(StorageErrorKind::UnHandledError, "UnHandled Error: boom");
    let listing = Query::list_documents_reply(Err(failure())).unwrap_err();
    assert_eq!(listing.reason, "Error Listing Documents");
    assert_eq!(
        listing.message,
        "Model Error: Error Listing Documents - Storage Error: UnHandled Error: boom"
    );
    let getting = Query::get_document_reply(Err(failure())).unwrap_err();
    assert_eq!(getting.reason, "Error Getting Document");
    let adding = Mutation::add_document_reply(Err(failure())).unwrap_err();
    assert_eq!(adding.reason, "Error Adding Document");
    assert_eq!(
        adding.message,
        "Model Error: Error Adding Document - Storage Error: UnHandled Error: boom"
    );
    let listed = Query::list_documents_reply(Ok(vec![document(1, Genre::Howto)])).unwrap();
    assert_eq!(listed.count, 1);
    let got = Query::get_document_reply(Ok(document(2, Genre::Howto))).unwrap();
    assert_eq!(got.document.id, 2);
    let added = Mutation::add_document_reply(Ok(document(3, Genre::Howto))).unwrap();
    assert_eq!(added.id, 3);
}

#[test]
fn domain_error_message() {
    let error = ModelError::storage(StorageErrorKind::ModelViolation, "bad row");
    assert_eq!(error.kind(), StorageErrorKind::ModelViolation);
    assert_eq!(error.message(), "Storage Error: bad row");
}
