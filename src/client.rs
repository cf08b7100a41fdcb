//! The client: endpoint table, request construction and the handling of
//! what the HTTP transport brings back.

use vstd::prelude::*;

use crate::error::{decode_error_response, error_envelope_of, is_error_envelope, ClientError};
use crate::json::{member, FromJson, JsonValue};
use crate::models::shared::Response;
use crate::json::unique_keys;
use crate::params::{all_allowed, first_rejected, validate_query_params, QueryParams};

verus! {

/// Base url for client request endpoints.
pub const BASE_URL: &'static str = "https://api-v3.mbta.com";

/// The endpoints of the API that the client serves.
#[derive(Debug, PartialEq, Eq, Clone, Copy, Structural)]
pub enum Endpoint {
    /// All alerts.
    Alerts,
    /// All facilities.
    Facilities,
    /// All lines.
    Lines,
    /// All routes.
    Routes,
    /// All route patterns.
    RoutePatterns,
    /// All schedules.
    Schedules,
    /// One alert by id.
    Alert,
    /// One facility by id.
    Facility,
    /// One line by id.
    Line,
    /// One route by id.
    Route,
    /// One route pattern by id.
    RoutePattern,
}

impl Endpoint {
    /// Whether the endpoint returns one resource, looked up by id.
    pub open spec fn is_single(self) -> bool {
        match self {
            Endpoint::Alert | Endpoint::Facility | Endpoint::Line | Endpoint::Route
            | Endpoint::RoutePattern => true,
            _ => false,
        }
    }

    /// The path of the endpoint, relative to the base URL (before any id).
    pub open spec fn spec_path(self) -> Seq<char> {
        match self {
            Endpoint::Alerts | Endpoint::Alert => "alerts"@,
            Endpoint::Facilities | Endpoint::Facility => "facilities"@,
            Endpoint::Lines | Endpoint::Line => "lines"@,
            Endpoint::Routes | Endpoint::Route => "routes"@,
            Endpoint::RoutePatterns | Endpoint::RoutePattern => "route_patterns"@,
            Endpoint::Schedules => "schedules"@,
        }
    }

    /// The query parameter names that the endpoint accepts.
    pub open spec fn spec_allowed(self) -> Seq<&'static str> {
        match self {
            Endpoint::Alerts => seq![
                "page[offset]",
                "page[limit]",
                "sort",
                "filter[activity]",
                "filter[route_type]",
                "filter[direction_id]",
                "filter[route]",
                "filter[stop]",
                "filter[trip]",
                "filter[facility]",
                "filter[id]",
                "filter[banner]",
                "filter[datetime]",
                "filter[lifecycle]",
                "filter[severity]",
            ],
            Endpoint::Facilities => seq![
                "page[offset]",
                "page[limit]",
                "sort",
                "filter[stop]",
                "filter[type]",
            ],
            Endpoint::Lines => seq!["page[offset]", "page[limit]", "sort", "filter[id]"],
            Endpoint::Routes => seq![
                "page[offset]",
                "page[limit]",
                "sort",
                "include",
                "filter[stop]",
                "filter[type]",
                "filter[direction_id]",
                "filter[date]",
                "filter[id]",
            ],
            Endpoint::RoutePatterns => seq![
                "page[offset]",
                "page[limit]",
                "sort",
                "include",
                "filter[id]",
                "filter[route]",
                "filter[direction_id]",
                "filter[stop]",
            ],
            Endpoint::Schedules => seq![
                "page[offset]",
                "page[limit]",
                "sort",
                "filter[date]",
                "filter[direction_id]",
                "filter[route_type]",
                "filter[min_time]",
                "filter[max_time]",
                "filter[route]",
                "filter[stop]",
                "filter[trip]",
                "filter[stop_sequence]",
            ],
            _ => seq![],
        }
    }

    /// Whether the endpoint returns one resource, looked up by id.
    pub fn is_single_endpoint(&self) -> (r: bool)
        ensures
            r == self.is_single(),
    {
        match self {
            Endpoint::Alert | Endpoint::Facility | Endpoint::Line | Endpoint::Route
            | Endpoint::RoutePattern => true,
            _ => false,
        }
    }

    /// The path of the endpoint, relative to the base URL (before any id).
    pub fn path(&self) -> (r: &'static str)
        ensures
            r@ == self.spec_path(),
    {
        match self {
            Endpoint::Alerts | Endpoint::Alert => "alerts",
            Endpoint::Facilities | Endpoint::Facility => "facilities",
            Endpoint::Lines | Endpoint::Line => "lines",
            Endpoint::Routes | Endpoint::Route => "routes",
            Endpoint::RoutePatterns | Endpoint::RoutePattern => "route_patterns",
            Endpoint::Schedules => "schedules",
        }
    }

    /// The query parameter names that the endpoint accepts.
    pub fn allowed_query_params(&self) -> (r: Vec<&'static str>)
        ensures
            r@ == self.spec_allowed(),
    {
        match self {
            Endpoint::Alerts => vec![
                "page[offset]",
                "page[limit]",
                "sort",
                "filter[activity]",
                "filter[route_type]",
                "filter[direction_id]",
                "filter[route]",
                "filter[stop]",
                "filter[trip]",
                "filter[facility]",
                "filter[id]",
                "filter[banner]",
                "filter[datetime]",
                "filter[lifecycle]",
                "filter[severity]",
            ],
            Endpoint::Facilities => vec![
                "page[offset]",
                "page[limit]",
                "sort",
                "filter[stop]",
                "filter[type]",
            ],
            Endpoint::Lines => vec!["page[offset]", "page[limit]", "sort", "filter[id]"],
            Endpoint::Routes => vec![
                "page[offset]",
                "page[limit]",
                "sort",
                "include",
                "filter[stop]",
                "filter[type]",
                "filter[direction_id]",
                "filter[date]",
                "filter[id]",
            ],
            Endpoint::RoutePatterns => vec![
                "page[offset]",
                "page[limit]",
                "sort",
                "include",
                "filter[id]",
                "filter[route]",
                "filter[direction_id]",
                "filter[stop]",
            ],
            Endpoint::Schedules => vec![
                "page[offset]",
                "page[limit]",
                "sort",
                "filter[date]",
                "filter[direction_id]",
                "filter[route_type]",
                "filter[min_time]",
                "filter[max_time]",
                "filter[route]",
                "filter[stop]",
                "filter[trip]",
                "filter[stop_sequence]",
            ],
            _ => vec![],
        }
    }
}

/// Synchronous client for the MBTA V3 API: an optional API key and the base
/// URL, fixed at construction.
#[derive(Debug, Clone, PartialEq)]
pub struct Client {
    api_key: Option<String>,
    base_url: String,
}

/// A GET request, ready to be sent.
#[derive(Debug, Clone, PartialEq)]
pub struct Request {
    /// Full URL: base URL, `/`, endpoint path.
    pub url: String,
    /// Value of the `x-api-key` header, when the client has a key.
    pub api_key: Option<String>,
    /// Query parameters, each name once.
    pub query: QueryParams,
}

/// What the HTTP transport brought back for a request.
#[derive(Debug, PartialEq)]
pub enum HttpOutcome {
    /// No response was obtained (connection, DNS, timeout).
    Transport(String),
    /// A response came whose body could not be read as JSON.
    Unreadable(String),
    /// A response with its status code and JSON body.
    Received {
        /// HTTP status code.
        status: u16,
        /// The body.
        body: JsonValue,
    },
}

/// Whether `r` is the decoding of a successful response body: the success
/// envelope if the body has its shape, else the error envelope if it has
/// that one, else a decode error.
pub open spec fn envelope_result<D: FromJson>(body: JsonValue, r: Result<Response<D>, ClientError>) -> bool {
    match r {
        Ok(v) => Response::<D>::decodable(body) && Response::<D>::decodes_to(body, v),
        Err(ClientError::ResponseError { errors }) => !Response::<D>::decodable(body)
            && error_envelope_of(body, errors),
        Err(ClientError::DecodeError) => !Response::<D>::decodable(body) && !is_error_envelope(body),
        Err(_) => false,
    }
}

/// Whether `e` is the reading of an error response body: the error envelope
/// if the body has its shape, else a decode error.
pub open spec fn error_body_result(body: JsonValue, e: ClientError) -> bool {
    match e {
        ClientError::ResponseError { errors } => error_envelope_of(body, errors),
        ClientError::DecodeError => !is_error_envelope(body),
        _ => false,
    }
}

/// Whether a status code reports success.
pub open spec fn is_success(status: u16) -> bool {
    200 <= status < 300
}

/// Decodes a response body: the success envelope first, then the error
/// envelope, then a decode error.
pub fn decode_envelope<D: FromJson>(body: JsonValue) -> (r: Result<Response<D>, ClientError>)
    ensures
        envelope_result(body, r),
{
    // The error reading borrows the body; it is used only when the success
    // decoding, which consumes the body, fails.
    let failure = decode_error_response(&body);
    match Response::<D>::from_json(body) {
        Some(v) => Ok(v),
        None => match failure {
            Some(errors) => Err(ClientError::ResponseError { errors }),
            None => Err(ClientError::DecodeError),
        },
    }
}

/// Reads the body of a response whose status reports failure.
pub fn error_from_body(body: &JsonValue) -> (e: ClientError)
    ensures
        error_body_result(*body, e),
{
    match decode_error_response(body) {
        Some(errors) => ClientError::ResponseError { errors },
        None => ClientError::DecodeError,
    }
}

/// Turns what the transport brought back into the call's result.
pub fn decode_outcome<D: FromJson>(outcome: HttpOutcome) -> (r: Result<Response<D>, ClientError>)
    ensures
        match outcome {
            HttpOutcome::Transport(m) => r == Err::<Response<D>, ClientError>(
                ClientError::TransportError(m),
            ),
            HttpOutcome::Unreadable(m) => r == Err::<Response<D>, ClientError>(
                ClientError::IOError(m),
            ),
            HttpOutcome::Received { status, body } => if is_success(status) {
                envelope_result(body, r)
            } else {
                match r {
                    Ok(_) => false,
                    Err(e) => error_body_result(body, e),
                }
            },
        },
{
    match outcome {
        HttpOutcome::Transport(m) => Err(ClientError::TransportError(m)),
        HttpOutcome::Unreadable(m) => Err(ClientError::IOError(m)),
        HttpOutcome::Received { status, body } => {
            if 200 <= status && status < 300 {
                decode_envelope::<D>(body)
            } else {
                Err(error_from_body(&body))
            }
        },
    }
}

/// A typed success decoding is also a success of the generic decoding that
/// keeps the data as a JSON document, with the same version and links.
pub proof fn lemma_typed_success_is_generic<D: FromJson>(j: JsonValue, v: Response<D>)
    requires
        Response::<D>::decodable(j),
        Response::<D>::decodes_to(j, v),
    ensures
        Response::<JsonValue>::decodable(j),
        Response::<JsonValue>::decodes_to(
            j,
            Response { data: member(j, "data"@)->0, jsonapi: v.jsonapi, links: v.links },
        ),
{
}

/// A document that is not an object decodes as neither envelope.
pub proof fn lemma_malformed_rejected<D: FromJson>(j: JsonValue)
    requires
        !(j is Object),
    ensures
        !Response::<D>::decodable(j),
        !is_error_envelope(j),
        forall|r: Result<Response<D>, ClientError>|
            envelope_result(j, r) ==> r == Err::<Response<D>, ClientError>(ClientError::DecodeError),
{
}

impl Client {
    /// The API key, if any.
    pub closed spec fn spec_api_key(&self) -> Option<String> {
        self.api_key
    }

    /// The base URL.
    pub closed spec fn spec_base_url(&self) -> String {
        self.base_url
    }

    /// Creates a client without an API key, on the production base URL.
    pub fn without_key() -> (r: Self)
        ensures
            r.spec_api_key() is None,
            r.spec_base_url()@ == BASE_URL@,
    {
        Self { api_key: None, base_url: String::from_str(BASE_URL) }
    }

    /// Creates a client with an API key, on the production base URL.
    pub fn with_key(api_key: &str) -> (r: Self)
        ensures
            r.spec_api_key() matches Some(k) && k@ == api_key@,
            r.spec_base_url()@ == BASE_URL@,
    {
        Self { api_key: Some(String::from_str(api_key)), base_url: String::from_str(BASE_URL) }
    }

    /// Creates a client with a custom base URL and no API key, for tests and
    /// mock servers.
    pub fn with_url(base_url: &str) -> (r: Self)
        ensures
            r.spec_api_key() is None,
            r.spec_base_url()@ == base_url@,
    {
        Self { api_key: None, base_url: String::from_str(base_url) }
    }

    /// The API key, if any.
    pub fn api_key(&self) -> (r: Option<&str>)
        ensures
            match r {
                Some(k) => self.spec_api_key() matches Some(s) && k@ == s@,
                None => self.spec_api_key() is None,
            },
    {
        match &self.api_key {
            Some(k) => Some(k.as_str()),
            None => None,
        }
    }

    /// The base URL.
    pub fn base_url(&self) -> (r: &str)
        ensures
            r@ == self.spec_base_url()@,
    {
        self.base_url.as_str()
    }

    /// Builds the request for `endpoint`, with `id` appended to the path of a
    /// single-resource endpoint, after checking the query parameters against
    /// the endpoint's allow-list. No request is built when a parameter is
    /// not allowed.
    pub fn request(&self, endpoint: Endpoint, id: &str, query_params: QueryParams) -> (r: Result<
        Request,
        ClientError,
    >)
        ensures
            match r {
                Ok(req) => {
                    &&& all_allowed(endpoint.spec_allowed(), query_params@)
                    &&& req.query == query_params
                    &&& unique_keys(req.query@)
                    &&& req.api_key == self.spec_api_key()
                    &&& req.url@ == if endpoint.is_single() {
                        self.spec_base_url()@ + seq!['/'] + endpoint.spec_path() + seq!['/'] + id@
                    } else {
                        self.spec_base_url()@ + seq!['/'] + endpoint.spec_path()
                    }
                },
                Err(ClientError::InvalidQueryParam { name, value }) => exists|i: int|
                    first_rejected(endpoint.spec_allowed(), query_params@, i) && name == (
                    #[trigger] query_params@[i]).0 && value == query_params@[i].1,
                Err(_) => false,
            },
    {
        let allowed = endpoint.allowed_query_params();
        match validate_query_params(allowed.as_slice(), query_params.pairs()) {
            Ok(()) => {},
            Err(e) => return Err(e),
        }
        let query = query_params;
        proof {
            reveal_strlit("/");
        }
        let mut url = self.base_url.clone();
        url.append("/");
        url.append(endpoint.path());
        if endpoint.is_single_endpoint() {
            url.append("/");
            url.append(id);
        }
        let api_key = match &self.api_key {
            Some(k) => Some(k.clone()),
            None => None,
        };
        Ok(Request { url, api_key, query })
    }
}

} // verus!
