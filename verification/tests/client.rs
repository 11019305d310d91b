use docstore::client::{
    add_document, get_document, headers, list_documents, list_documents_variables,
    DocumentResponse, Error, Exchange, ListDocumentsRequest, ListDocumentsVariables,
};
use docstore::graphql::api::TransportError;
use docstore::model::document::Timestamp;

fn response(id: u128) -> DocumentResponse {
    DocumentResponse {
        id,
        title: "T".to_string(),
        outline: "O".to_string(),
        content: "C".to_string(),
        html: "<p>C</p>".to_string(),
        tags: vec!["a".to_string()],
        genre: "howto".to_string(),
        created_at: Timestamp { seconds: 1, nanoseconds: 2 },
        updated_at: Timestamp { seconds: 3, nanoseconds: 4 },
    }
}

fn cause(message: &str) -> TransportError {
    TransportError { message: message.to_string() }
}

fn refused(msg: &str, message: &str) -> Error {
    Error::Reqwest { msg: msg.to_string(), source: cause(message) }
}

#[test]
fn fixed_headers() {
    assert_eq!(
        headers(),
        vec![
            ("Accept-Encoding", "gzip, deflate, br"),
            ("Content-Type", "application/json"),
            ("Accept", "application/json"),
        ]
    );
}

#[test]
fn listing_variables_are_the_request_as_integers() {
    assert_eq!(
        list_documents_variables(ListDocumentsRequest { offset: 0, limit: 10 }),
        ListDocumentsVariables { offset: 0, limit: 10 }
    );
    assert_eq!(
        list_documents_variables(ListDocumentsRequest { offset: u32::MAX, limit: u32::MAX }),
        ListDocumentsVariables { offset: 4_294_967_295, limit: 4_294_967_295 }
    );
}

#[test]
fn exchanges_with_a_result() {
    assert!(Exchange::<u8>::NoClient { cause: cause("x") }.settled());
    assert!(Exchange::<u8>::Failed { cause: cause("x") }.settled());
    assert!(Exchange::Answered { data: Some(1u8) }.settled());
    assert!(!Exchange::<u8>::Answered { data: None }.settled());
}

#[test]
fn listing_gives_the_documents_of_the_answer() {
    let answered = Exchange::Answered { data: Some(vec![response(2), response(1)]) };
    assert_eq!(list_documents(answered), Ok(vec![response(2), response(1)]));
    assert_eq!(list_documents(Exchange::Answered { data: Some(vec![]) }), Ok(vec![]));
}

#[test]
fn listing_reports_failures_of_the_transport() {
    assert_eq!(
        list_documents(Exchange::NoClient { cause: cause("tls") }),
        Err(refused("Cannot request list documents", "tls"))
    );
    assert_eq!(
        list_documents(Exchange::Failed { cause: cause("refused") }),
        Err(refused("Foo", "refused"))
    );
}

#[test]
fn fetch_gives_the_document_of_the_answer() {
    assert_eq!(get_document(Exchange::Answered { data: Some(response(5)) }), Ok(response(5)));
    assert_eq!(
        get_document(Exchange::NoClient { cause: cause("tls") }),
        Err(refused("Cannot request get document", "tls"))
    );
    assert_eq!(
        get_document(Exchange::Failed { cause: cause("timeout") }),
        Err(refused("Foo", "timeout"))
    );
}

#[test]
fn addition_gives_the_document_of_the_answer() {
    assert_eq!(add_document(Exchange::Answered { data: Some(response(6)) }), Ok(response(6)));
    assert_eq!(
        add_document(Exchange::NoClient { cause: cause("tls") }),
        Err(refused("Cannot request list documents", "tls"))
    );
    assert_eq!(
        add_document(Exchange::Failed { cause: cause("timeout") }),
        Err(refused("Foo", "timeout"))
    );
}

#[test]
fn client_error_message() {
    assert_eq!(refused("Foo", "timeout").message(), "Request Error: Foo - timeout");
}

#[test]
fn fetch_returns_no_document_unless_the_answer_holds_one() {
    for exchange in [
        Exchange::NoClient { cause: cause("tls") },
        Exchange::Failed { cause: cause("404") },
    ] {
        assert!(exchange.settled());
        assert!(get_document(exchange).is_err());
    }
    let without_data: Exchange<DocumentResponse> = Exchange::Answered { data: None };
    assert!(!without_data.settled());
}
