use docstore::model::document::{
    AddDocumentRequest, Document, Genre, ListDocumentsRequest, Timestamp,
};
use docstore::model::error::{Error as ModelError, StorageError, StorageErrorKind};
use docstore::ports::secondary::remote::Error as RemoteError;
use docstore::postgres::remote;
use docstore::postgres::storage::{
    add_document, add_document_parameters, documents_from_rows, get_document, list_documents,
    list_documents_parameters, AddDocumentParameters, DocumentEntity, DocumentRow, GenreEntity,
    ListDocumentsParameters, ADD_DOCUMENT, GET_DOCUMENT, LIST_DOCUMENTS,
};
use docstore::postgres::{
    DriverError, DriverErrorKind, Error, PostgresqlStorage, PostgresqlStorageConfig,
};

fn at(seconds: i64) -> Timestamp {
    Timestamp { seconds, nanoseconds: 7 }
}

fn row(id: u128, genre: &str) -> DocumentRow {
    DocumentRow {
        id,
        title: format!("title {}", id),
        outline: "outline".to_string(),
        content: "content".to_string(),
        html: "<p>content</p>".to_string(),
        tags: vec!["a".to_string()],
        genre: genre.to_string(),
        created_at: at(1),
        updated_at: at(2),
    }
}

fn failure(kind: DriverErrorKind, message: &str) -> DriverError {
    DriverError { kind, message: message.to_string() }
}

fn storage_error(kind: StorageErrorKind, message: &str) -> ModelError {
    ModelError::Storage { source: StorageError { kind, message: message.to_string() } }
}

#[test]
fn genre_entity_labels() {
    assert_eq!(GenreEntity::Tutorial.as_label(), "tutorial");
    assert_eq!(GenreEntity::Howto.as_label(), "howto");
    assert_eq!(GenreEntity::Background.as_label(), "background");
    assert_eq!(GenreEntity::Reference.as_label(), "reference");
    assert_eq!(GenreEntity::Tbd.as_label(), "tbd");
}

#[test]
fn genre_entity_reads_its_labels_only() {
    for entity in [
        GenreEntity::Tutorial,
        GenreEntity::Howto,
        GenreEntity::Background,
        GenreEntity::Reference,
        GenreEntity::Tbd,
    ] {
        assert_eq!(GenreEntity::from_label(entity.as_label()), Some(entity));
    }
    assert_eq!(GenreEntity::from_label("to be decided"), None);
    assert_eq!(GenreEntity::from_label("Tutorial"), None);
    assert_eq!(GenreEntity::from_label(""), None);
    assert_eq!(GenreEntity::from_label("poem"), None);
}

#[test]
fn genre_and_entity_convert_both_ways() {
    let pairs = [
        (Genre::Tutorial, GenreEntity::Tutorial),
        (Genre::Howto, GenreEntity::Howto),
        (Genre::Background, GenreEntity::Background),
        (Genre::Reference, GenreEntity::Reference),
        (Genre::Tbd, GenreEntity::Tbd),
    ];
    for (genre, entity) in pairs {
        assert_eq!(GenreEntity::from(&genre), entity);
        assert_eq!(Genre::from(entity), genre);
    }
}

#[test]
fn row_with_a_known_genre_is_read() {
    let entity = DocumentEntity::from_row(row(3, "howto")).unwrap();
    assert_eq!(
        entity,
        DocumentEntity {
            id: 3,
            title: "title 3".to_string(),
            outline: "outline".to_string(),
            content: "content".to_string(),
            html: "<p>content</p>".to_string(),
            tags: vec!["a".to_string()],
            genre: GenreEntity::Howto,
            created_at: at(1),
            updated_at: at(2),
        }
    );
}

#[test]
fn row_with_an_unknown_genre_violates_the_model() {
    let error = DocumentEntity::from_row(row(3, "poem")).unwrap_err();
    assert_eq!(error, Error::ModelViolation { details: "unknown genre: poem".to_string() });
    assert_eq!(error.kind(), StorageErrorKind::ModelViolation);
    assert_eq!(error.message(), "Operation violates model: unknown genre: poem");
}

#[test]
fn entity_becomes_a_document() {
    let entity = DocumentEntity::from_row(row(3, "tbd")).unwrap();
    assert_eq!(
        Document::from(entity),
        Document {
            id: 3,
            title: "title 3".to_string(),
            outline: "outline".to_string(),
            content: "content".to_string(),
            html: "<p>content</p>".to_string(),
            tags: vec!["a".to_string()],
            genre: Genre::Tbd,
            created_at: at(1),
            updated_at: at(2),
        }
    );
}

#[test]
fn rows_are_read_in_their_order() {
    let documents =
        documents_from_rows(vec![row(2, "howto"), row(1, "tutorial"), row(3, "reference")])
            .unwrap();
    let ids: Vec<u128> = documents.iter().map(|d| d.id).collect();
    assert_eq!(ids, vec![2, 1, 3]);
    let genres: Vec<Genre> = documents.iter().map(|d| d.genre).collect();
    assert_eq!(genres, vec![Genre::Howto, Genre::Tutorial, Genre::Reference]);
    assert_eq!(documents_from_rows(vec![]), Ok(vec![]));
}

#[test]
fn first_unreadable_row_is_reported() {
    let error = documents_from_rows(vec![
        row(1, "howto"),
        row(2, "poem"),
        row(3, "novel"),
        row(4, "tutorial"),
    ])
    .unwrap_err();
    assert_eq!(error, Error::ModelViolation { details: "unknown genre: poem".to_string() });
}

#[test]
fn driver_failures_are_reported() {
    assert_eq!(
        Error::from(failure(DriverErrorKind::RowNotFound, "no rows returned")),
        Error::NotFound
    );
    assert_eq!(
        Error::from(failure(DriverErrorKind::UniqueViolation, "duplicate key")),
        Error::UniqueViolation { details: "duplicate key".to_string() }
    );
    assert_eq!(
        Error::from(failure(DriverErrorKind::Database, "syntax error")),
        Error::UnHandledError { source: failure(DriverErrorKind::Database, "syntax error") }
    );
    assert_eq!(
        Error::from(failure(DriverErrorKind::Other, "pool timed out")),
        Error::UnHandledError { source: failure(DriverErrorKind::Other, "pool timed out") }
    );
}

#[test]
fn adapter_error_kinds_and_messages() {
    let connection =
        Error::Connection { source: RemoteError::Connection { source: "down".to_string() } };
    assert_eq!(connection.kind(), StorageErrorKind::Connection);
    assert_eq!(connection.message(), "Connection");
    assert_eq!(Error::NotFound.kind(), StorageErrorKind::NotFound);
    assert_eq!(Error::NotFound.message(), "Entity does not exist");
    let unique = Error::UniqueViolation { details: "id 7".to_string() };
    assert_eq!(unique.kind(), StorageErrorKind::UniqueViolation);
    assert_eq!(unique.message(), "Operation violates uniqueness constraint: id 7");
    let model = Error::ModelViolation { details: "genre".to_string() };
    assert_eq!(model.kind(), StorageErrorKind::ModelViolation);
    assert_eq!(model.message(), "Operation violates model: genre");
    let unhandled = Error::UnHandledError { source: failure(DriverErrorKind::Other, "boom") };
    assert_eq!(unhandled.kind(), StorageErrorKind::UnHandledError);
    assert_eq!(unhandled.message(), "UnHandled Error: boom");
}

#[test]
fn adapter_error_crosses_the_port_as_a_storage_error() {
    assert_eq!(
        ModelError::from(Error::NotFound),
        storage_error(StorageErrorKind::NotFound, "Entity does not exist")
    );
    assert_eq!(
        ModelError::from(Error::UnHandledError {
            source: failure(DriverErrorKind::Database, "syntax error"),
        }),
        storage_error(StorageErrorKind::UnHandledError, "UnHandled Error: syntax error")
    );
    assert_eq!(
        ModelError::from(Error::NotFound).message(),
        "Storage Error: Entity does not exist"
    );
}

#[test]
fn listing_answers_with_the_documents_of_the_rows() {
    let listed = list_documents(Ok(vec![row(1, "howto"), row(2, "tbd")])).unwrap();
    assert_eq!(listed.len(), 2);
    assert_eq!(listed[0].id, 1);
    assert_eq!(listed[0].genre, Genre::Howto);
    assert_eq!(listed[1].id, 2);
    assert_eq!(listed[1].genre, Genre::Tbd);
    assert_eq!(list_documents(Ok(vec![])), Ok(vec![]));
}

#[test]
fn listing_answers_a_failure_of_the_driver() {
    assert_eq!(
        list_documents(Err(failure(DriverErrorKind::Database, "relation missing"))),
        Err(storage_error(StorageErrorKind::UnHandledError, "UnHandled Error: relation missing"))
    );
    assert_eq!(
        list_documents(Err(failure(DriverErrorKind::RowNotFound, "no rows"))),
        Err(storage_error(StorageErrorKind::NotFound, "Entity does not exist"))
    );
}

#[test]
fn listing_answers_an_unreadable_row() {
    assert_eq!(
        list_documents(Ok(vec![row(1, "howto"), row(2, "saga")])),
        Err(storage_error(
            StorageErrorKind::ModelViolation,
            "Operation violates model: unknown genre: saga"
        ))
    );
}

#[test]
fn addition_answers_with_the_stored_document() {
    let stored = add_document(Ok(row(9, "background"))).unwrap();
    assert_eq!(stored.id, 9);
    assert_eq!(stored.genre, Genre::Background);
    assert_eq!(stored.created_at, at(1));
    assert_eq!(stored.updated_at, at(2));
    assert_eq!(
        add_document(Err(failure(DriverErrorKind::Database, "value too long"))),
        Err(storage_error(StorageErrorKind::UnHandledError, "UnHandled Error: value too long"))
    );
    assert_eq!(
        add_document(Ok(row(9, "BACKGROUND"))),
        Err(storage_error(
            StorageErrorKind::ModelViolation,
            "Operation violates model: unknown genre: BACKGROUND"
        ))
    );
}

#[test]
fn fetch_answers_not_found_for_a_missing_row() {
    assert_eq!(
        get_document(Err(failure(DriverErrorKind::RowNotFound, "no rows returned"))),
        Err(storage_error(StorageErrorKind::NotFound, "Entity does not exist"))
    );
    assert_eq!(get_document(Ok(row(4, "reference"))).unwrap().id, 4);
}

#[test]
fn remote_error_messages() {
    let invalid = remote::Error::InvalidUrl {
        details: "postgres:/x".to_string(),
        source: "relative URL without a base".to_string(),
    };
    assert_eq!(
        invalid.message(),
        "Invalid Postgresql URL: postgres:/x, relative URL without a base"
    );
    let connection = remote::Error::PostgresqlConnection {
        source: failure(DriverErrorKind::Other, "pool timed out"),
    };
    assert_eq!(connection.message(), "Postgresql Connection Error: pool timed out");
    let version = remote::Error::VersionRequirementInvalid {
        details: ">=x".to_string(),
        source: "unexpected character".to_string(),
    };
    assert_eq!(
        version.message(),
        "Invalid Version Requirement Specification >=x: unexpected character"
    );
    assert_eq!(
        RemoteError::from(connection),
        RemoteError::Connection {
            source: "Postgresql Connection Error: pool timed out".to_string(),
        }
    );
}

#[test]
fn connection_pool_reports_the_failure_of_the_driver() {
    let made: Result<u8, DriverError> = Ok(3);
    assert_eq!(remote::connection_pool(made), Ok(3));
    let failed: Result<u8, DriverError> = Err(failure(DriverErrorKind::Other, "refused"));
    assert_eq!(
        remote::connection_pool(failed),
        Err(RemoteError::Connection {
            source: "Postgresql Connection Error: refused".to_string(),
        })
    );
}

#[test]
fn postgresql_configuration_copies() {
    let config =
        PostgresqlStorageConfig { url: "postgres://localhost:5432/db".to_string(), timeout: 2000 };
    assert_eq!(config.clone(), config);
}

#[test]
fn statements() {
    assert_eq!(LIST_DOCUMENTS, "SELECT * FROM api.list_documents($1::INTEGER, $2::INTEGER)");
    assert_eq!(
        ADD_DOCUMENT,
        "SELECT * FROM api.add_document($1::TEXT, $2::TEXT, $3::TEXT, $4::TEXT, $5::TEXT, \
         $6::TEXT[], $7::main.GENRE)"
    );
    assert_eq!(
        GET_DOCUMENT,
        "SELECT * FROM api.list_documents(2147483647, 0) AS document WHERE document.id = $1"
    );
}

#[test]
fn listing_binds_the_limit_then_the_offset() {
    assert_eq!(
        list_documents_parameters(&ListDocumentsRequest { offset: 20, limit: 10 }),
        ListDocumentsParameters { limit: 10, offset: 20 }
    );
    assert_eq!(
        list_documents_parameters(&ListDocumentsRequest { offset: u32::MAX, limit: 0 }),
        ListDocumentsParameters { limit: 0, offset: 4_294_967_295 }
    );
}

#[test]
fn addition_binds_the_fields_and_the_label_of_the_genre() {
    let request = AddDocumentRequest {
        id: 12,
        title: "T".to_string(),
        outline: "O".to_string(),
        content: "C".to_string(),
        html: "<p>C</p>".to_string(),
        tags: vec!["a".to_string(), "b".to_string()],
        genre: Genre::Tbd,
    };
    assert_eq!(
        add_document_parameters(&request),
        AddDocumentParameters {
            id: 12,
            title: &"T".to_string(),
            outline: &"O".to_string(),
            content: &"C".to_string(),
            html: &"<p>C</p>".to_string(),
            tags: &vec!["a".to_string(), "b".to_string()],
            genre: "tbd",
        }
    );
    let howto = AddDocumentRequest { genre: Genre::Howto, ..request };
    assert_eq!(add_document_parameters(&howto).genre, "howto");
}

#[test]
fn storage_holds_the_pool_that_was_made() {
    let storage = PostgresqlStorage::new(Ok("pool")).unwrap();
    assert_eq!(storage.pool, "pool");
}

#[test]
fn storage_without_a_pool_is_a_failed_connection() {
    let refused = || RemoteError::Connection { source: "refused".to_string() };
    let error = PostgresqlStorage::<u8>::new(Err(refused())).unwrap_err();
    assert_eq!(error, Error::Connection { source: refused() });
    assert_eq!(error.kind(), StorageErrorKind::Connection);
    assert_eq!(
        ModelError::from(error),
        storage_error(StorageErrorKind::Connection, "Connection")
    );
}

#[test]
fn addition_under_a_taken_id_is_a_unique_violation() {
    let refused = add_document(Err(failure(
        DriverErrorKind::UniqueViolation,
        "duplicate key value violates unique constraint \"documents_pkey\"",
    )));
    assert_eq!(
        refused,
        Err(storage_error(
            StorageErrorKind::UniqueViolation,
            "Operation violates uniqueness constraint: duplicate key value violates unique \
             constraint \"documents_pkey\""
        ))
    );
    assert_eq!(refused.unwrap_err().kind(), StorageErrorKind::UniqueViolation);
}
