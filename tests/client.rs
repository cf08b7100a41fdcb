use mbta_rs::{
    decode_outcome, APIVersion, Client, ClientError, Endpoint, HttpOutcome, JsonNumber, JsonValue,
    QueryParams, Resource, Response, BASE_URL,
};

fn text(s: &str) -> JsonValue {
    JsonValue::Str(s.to_string())
}

fn object(members: Vec<(&str, JsonValue)>) -> JsonValue {
    JsonValue::Object(members.into_iter().map(|(k, v)| (k.to_string(), v)).collect())
}

fn params(items: &[(&str, &str)]) -> QueryParams {
    let mut q = QueryParams::new();
    for (k, v) in items {
        q.insert(k.to_string(), v.to_string());
    }
    q
}

fn pairs(items: &[(&str, &str)]) -> Vec<(String, String)> {
    items.iter().map(|(k, v)| (k.to_string(), v.to_string())).collect()
}

fn route_list_body() -> JsonValue {
    object(vec![
        (
            "data",
            JsonValue::Array(vec![object(vec![
                ("type", text("route")),
                ("id", text("Red")),
                ("attributes", object(vec![("long_name", text("Red Line"))])),
            ])]),
        ),
        ("jsonapi", object(vec![("version", text("1.0"))])),
    ])
}

fn bad_filter_body() -> JsonValue {
    object(vec![
        ("errors", JsonValue::Array(vec![object(vec![("code", text("bad_filter"))])])),
        ("jsonapi", object(vec![("version", text("1.0"))])),
    ])
}

#[test]
fn test_client_without_key() {
    let client = Client::without_key();
    assert_eq!(client.api_key(), None);
    assert_eq!(client.base_url(), "https://api-v3.mbta.com");
    assert_eq!(BASE_URL, "https://api-v3.mbta.com");
}

#[test]
fn test_client_with_key() {
    let client = Client::with_key("test key");
    assert_eq!(client.api_key(), Some("test key"));
    assert_eq!(client.base_url(), "https://api-v3.mbta.com");
}

#[test]
fn test_client_with_url() {
    let client = Client::with_url("https://foobar.com");
    assert_eq!(client.api_key(), None);
    assert_eq!(client.base_url(), "https://foobar.com");
}

#[test]
fn valid_list_call_builds_request() {
    let client = Client::with_url("http://127.0.0.1:5000");
    let request = client
        .request(Endpoint::Routes, "", params(&[("page[limit]", "3")]))
        .expect("page[limit] is allowed");
    assert_eq!(request.url, "http://127.0.0.1:5000/routes");
    assert_eq!(request.api_key, None);
    assert_eq!(request.query.pairs(), pairs(&[("page[limit]", "3")]).as_slice());
}

#[test]
fn valid_list_call_decodes_one_route() {
    let outcome = HttpOutcome::Received { status: 200, body: route_list_body() };
    let response: Response<Vec<Resource<JsonValue>>> =
        decode_outcome(outcome).expect("success envelope");
    assert_eq!(response.data.len(), 1);
    assert_eq!(response.data[0].id, "Red");
    assert_eq!(response.data[0].resource_type, "route");
    assert_eq!(response.data[0].attributes, object(vec![("long_name", text("Red Line"))]));
    assert_eq!(response.jsonapi, APIVersion { version: "1.0".to_string() });
    assert_eq!(response.links, None);
}

#[test]
fn invalid_parameter_short_circuits() {
    let client = Client::with_url("http://127.0.0.1:5000");
    let error = client
        .request(Endpoint::Routes, "", params(&[("bad", "1")]))
        .expect_err("bad is not allowed");
    assert_eq!(
        error,
        ClientError::InvalidQueryParam { name: "bad".to_string(), value: "1".to_string() }
    );
}

#[test]
fn first_invalid_parameter_is_reported() {
    let client = Client::without_key();
    let error = client
        .request(
            Endpoint::Lines,
            "",
            params(&[("sort", "name"), ("filter[stop]", "place-sstat"), ("bad", "2")]),
        )
        .expect_err("lines has no stop filter");
    assert_eq!(
        error,
        ClientError::InvalidQueryParam {
            name: "filter[stop]".to_string(),
            value: "place-sstat".to_string()
        }
    );
}

#[test]
fn api_error_body_is_response_error() {
    let outcome = HttpOutcome::Received { status: 400, body: bad_filter_body() };
    let error = decode_outcome::<Vec<Resource<JsonValue>>>(outcome).expect_err("error status");
    match error {
        ClientError::ResponseError { errors } => {
            assert_eq!(errors.errors.len(), 1);
            assert_eq!(errors.errors[0].code.as_deref(), Some("bad_filter"));
            assert_eq!(errors.errors[0].status, None);
            assert_eq!(errors.jsonapi.version, "1.0");
        }
        other => panic!("wrong error: {:?}", other),
    }
}

#[test]
fn error_envelope_on_success_status_is_response_error() {
    let outcome = HttpOutcome::Received { status: 200, body: bad_filter_body() };
    let error = decode_outcome::<Vec<Resource<JsonValue>>>(outcome).expect_err("error envelope");
    assert!(matches!(error, ClientError::ResponseError { .. }));
}

#[test]
fn unknown_shape_is_decode_error() {
    let outcome = HttpOutcome::Received { status: 200, body: object(vec![("foo", text("bar"))]) };
    let error = decode_outcome::<Vec<Resource<JsonValue>>>(outcome).expect_err("no envelope");
    assert_eq!(error, ClientError::DecodeError);
    let outcome = HttpOutcome::Received { status: 404, body: text("not found") };
    let error = decode_outcome::<Vec<Resource<JsonValue>>>(outcome).expect_err("no envelope");
    assert_eq!(error, ClientError::DecodeError);
}

#[test]
fn transport_and_io_failures_are_kept_apart() {
    let error = decode_outcome::<Vec<Resource<JsonValue>>>(HttpOutcome::Transport(
        "connection refused".to_string(),
    ))
    .expect_err("no response");
    assert_eq!(error, ClientError::TransportError("connection refused".to_string()));
    let error = decode_outcome::<Vec<Resource<JsonValue>>>(HttpOutcome::Unreadable(
        "expected value".to_string(),
    ))
    .expect_err("unreadable body");
    assert_eq!(error, ClientError::IOError("expected value".to_string()));
}

#[test]
fn single_resource_lookup_builds_path_without_query() {
    let client = Client::with_url("http://127.0.0.1:5000");
    let request = client.request(Endpoint::Route, "Red", QueryParams::new()).expect("no parameters");
    assert_eq!(request.url, "http://127.0.0.1:5000/routes/Red");
    assert!(request.query.pairs().is_empty());
}

#[test]
fn single_resource_lookup_rejects_any_parameter() {
    let client = Client::without_key();
    let error = client
        .request(Endpoint::Route, "Red", params(&[("page[limit]", "3")]))
        .expect_err("empty allow-list");
    assert_eq!(
        error,
        ClientError::InvalidQueryParam { name: "page[limit]".to_string(), value: "3".to_string() }
    );
}

#[test]
fn api_key_is_carried_to_the_request() {
    let client = Client::with_key("SECRET-REDACTED");
    let request = client.request(Endpoint::Alert, "123", QueryParams::new()).expect("no parameters");
    assert_eq!(request.api_key, Some("SECRET-REDACTED".to_string()));
    assert_eq!(request.url, "https://api-v3.mbta.com/alerts/123");
}

#[test]
fn every_listing_endpoint_accepts_paging() {
    let client = Client::without_key();
    for (endpoint, path) in [
        (Endpoint::Alerts, "alerts"),
        (Endpoint::Facilities, "facilities"),
        (Endpoint::Lines, "lines"),
        (Endpoint::Routes, "routes"),
        (Endpoint::RoutePatterns, "route_patterns"),
        (Endpoint::Schedules, "schedules"),
    ] {
        let request = client
            .request(endpoint, "", params(&[("page[offset]", "0"), ("page[limit]", "3")]))
            .expect("paging is allowed");
        assert_eq!(request.url, format!("https://api-v3.mbta.com/{}", path));
        assert_eq!(request.query.pairs().len(), 2);
    }
}

#[test]
fn success_envelope_with_links_and_relationships() {
    let body = object(vec![
        (
            "data",
            object(vec![
                ("type", text("route")),
                ("id", text("Red")),
                ("links", object(vec![("self", text("/routes/Red"))])),
                ("attributes", JsonValue::Null),
                (
                    "relationships",
                    object(vec![
                        ("line", object(vec![("data", object(vec![("type", text("line")), ("id", text("line-Red"))]))])),
                        ("agency", object(vec![("data", JsonValue::Null)])),
                    ]),
                ),
            ]),
        ),
        ("jsonapi", object(vec![("version", text("1.0"))])),
        ("links", object(vec![("next", text("/routes?page[offset]=3")), ("first", JsonValue::Null)])),
    ]);
    let response: Response<Resource<JsonValue>> =
        decode_outcome(HttpOutcome::Received { status: 200, body }).expect("success envelope");
    let links = response.links.expect("links");
    assert_eq!(links.next.as_deref(), Some("/routes?page[offset]=3"));
    assert_eq!(links.first, None);
    assert_eq!(links.last, None);
    assert_eq!(response.data.links, Some(vec![("self".to_string(), "/routes/Red".to_string())]));
    let relationships = response.data.relationships.expect("relationships");
    assert_eq!(relationships.len(), 2);
    assert_eq!(relationships[0].0, "line");
    let atom = relationships[0].1.data.as_ref().expect("line reference");
    assert_eq!(atom.relationship_type, "line");
    assert_eq!(atom.id, "line-Red");
    assert_eq!(relationships[1].1.data, None);
}

#[test]
fn resource_without_attributes_does_not_decode() {
    let body = object(vec![
        ("data", object(vec![("type", text("route")), ("id", text("Red"))])),
        ("jsonapi", object(vec![("version", text("1.0"))])),
    ]);
    let error = decode_outcome::<Resource<JsonValue>>(HttpOutcome::Received { status: 200, body })
        .expect_err("attributes missing");
    assert_eq!(error, ClientError::DecodeError);
    let body = object(vec![
        ("data", object(vec![("type", text("route")), ("id", JsonValue::Number(JsonNumber::Unsigned(7))), ("attributes", JsonValue::Null)])),
        ("jsonapi", object(vec![("version", text("1.0"))])),
    ]);
    let error = decode_outcome::<Resource<JsonValue>>(HttpOutcome::Received { status: 200, body })
        .expect_err("id is not a string");
    assert_eq!(error, ClientError::DecodeError);
}

#[test]
fn query_params_keep_one_pair_per_name() {
    let mut q = QueryParams::new();
    q.insert("sort".to_string(), "name".to_string());
    q.insert("page[limit]".to_string(), "3".to_string());
    q.insert("sort".to_string(), "-name".to_string());
    assert_eq!(q.pairs(), pairs(&[("sort", "-name"), ("page[limit]", "3")]).as_slice());
    let copy = q.clone();
    assert_eq!(copy, q);
}

#[test]
fn duplicate_members_keep_the_first() {
    let body = object(vec![
        (
            "data",
            object(vec![
                ("type", text("route")),
                ("id", text("Red")),
                ("links", object(vec![("self", text("/routes/Red")), ("self", text("/other"))])),
                ("attributes", JsonValue::Null),
            ]),
        ),
        ("jsonapi", object(vec![("version", text("1.0"))])),
    ]);
    let response: Response<Resource<JsonValue>> =
        decode_outcome(HttpOutcome::Received { status: 200, body }).expect("success envelope");
    assert_eq!(response.data.links, Some(vec![("self".to_string(), "/routes/Red".to_string())]));
}
