use mbta_rs::error::{api_version_text, braced_pairs, decode_error_response};
use mbta_rs::{APIError, APIErrorResponse, APIVersion, ClientError, JsonValue};

fn text(s: &str) -> JsonValue {
    JsonValue::Str(s.to_string())
}

fn object(members: Vec<(&str, JsonValue)>) -> JsonValue {
    JsonValue::Object(members.into_iter().map(|(k, v)| (k.to_string(), v)).collect())
}

fn forbidden() -> APIErrorResponse {
    APIErrorResponse {
        errors: vec![APIError {
            code: Some("forbidden".to_string()),
            status: Some("403".to_string()),
            detail: None,
            source: None,
        }],
        jsonapi: APIVersion { version: "1.0".to_string() },
    }
}

#[test]
fn test_client_error_display_invalid_query_param_error() {
    let error = ClientError::InvalidQueryParam { name: "foo".into(), value: "bar".into() };
    assert_eq!(error.to_text(), "invalid query parameter: `foo=bar`");
}

#[test]
fn io_and_transport_error_texts() {
    assert_eq!(
        ClientError::IOError("test error".to_string()).to_text(),
        "some kind of I/O error occured: `test error`"
    );
    assert_eq!(
        ClientError::TransportError("dns failure".to_string()).to_text(),
        "HTTP transport error: `dns failure`"
    );
    assert_eq!(
        ClientError::DecodeError.to_text(),
        "response body matches neither the success nor the error envelope"
    );
}

#[test]
fn response_error_text() {
    assert_eq!(
        ClientError::ResponseError { errors: forbidden() }.to_text(),
        "HTTP response error: `APIErrorResponse { errors: [APIError { code: \"forbidden\", status: \"403\", detail: None, source: None }], jsonapi: APIVersion { version: \"1.0\" } }`"
    );
}

#[test]
fn api_error_text_with_detail_and_source() {
    let e = APIError {
        code: Some("bad_request".to_string()),
        status: Some("400".to_string()),
        detail: Some("Unsupported filter".to_string()),
        source: Some(vec![
            ("parameter".to_string(), "filter[foo]".to_string()),
            ("pointer".to_string(), "/data".to_string()),
        ]),
    };
    assert_eq!(
        e.to_text(),
        "{code: bad_request, status: 400, detail: Unsupported filter, source: {\"parameter\": \"filter[foo]\", \"pointer\": \"/data\"}}"
    );
}

#[test]
fn error_envelope_decodes_entries() {
    let body = object(vec![
        (
            "errors",
            JsonValue::Array(vec![object(vec![
                ("status", text("403")),
                ("code", text("forbidden")),
                ("source", object(vec![("parameter", text("api_key"))])),
            ])]),
        ),
        ("jsonapi", object(vec![("version", text("1.0"))])),
    ]);
    let decoded = decode_error_response(&body).expect("error envelope");
    assert_eq!(decoded.errors[0].code.as_deref(), Some("forbidden"));
    assert_eq!(decoded.errors[0].status.as_deref(), Some("403"));
    assert_eq!(decoded.errors[0].source, Some(vec![("parameter".to_string(), "api_key".to_string())]));
    let mut expected = forbidden();
    expected.errors[0].source = Some(vec![("parameter".to_string(), "api_key".to_string())]);
    assert_eq!(decoded, expected);
}

#[test]
fn error_envelope_needs_object_entries_and_version() {
    let body = object(vec![
        ("errors", JsonValue::Array(vec![text("forbidden")])),
        ("jsonapi", object(vec![("version", text("1.0"))])),
    ]);
    assert_eq!(decode_error_response(&body), None);
    let body = object(vec![("errors", JsonValue::Array(vec![]))]);
    assert_eq!(decode_error_response(&body), None);
    assert_eq!(decode_error_response(&text("foobar")), None);
}

#[test]
fn error_response_readable_text() {
    assert_eq!(
        forbidden().to_text(),
        "{ errors: ({code: forbidden, status: 403}, ), api version: APIVersion { version: \"1.0\" }}"
    );
    let empty = APIErrorResponse { errors: vec![], jsonapi: APIVersion { version: "1.0".to_string() } };
    assert_eq!(empty.to_text(), "{ errors: (), api version: APIVersion { version: \"1.0\" }}");
}

#[test]
fn debug_texts_quote_and_escape() {
    let e = APIError {
        code: Some("bad".to_string()),
        status: None,
        detail: Some("say \"hi\"".to_string()),
        source: Some(vec![("k".to_string(), "v".to_string())]),
    };
    assert_eq!(
        e.debug_text(),
        "APIError { code: \"bad\", status: None, detail: Some(\"say \\\"hi\\\"\"), source: Some({\"k\": \"v\"}) }"
    );
    assert_eq!(e.to_text(), "{code: bad, status: , detail: say \"hi\", source: {\"k\": \"v\"}}");
}

#[test]
fn quoted_pieces_assemble() {
    assert_eq!(api_version_text("\"2.0\""), "APIVersion { version: \"2.0\" }");
    let members = vec![("\"a\"".to_string(), "\"b\"".to_string()), ("c".to_string(), "d".to_string())];
    assert_eq!(braced_pairs(&members), "{\"a\": \"b\", c: d}");
    assert_eq!(braced_pairs(&[]), "{}");
}
