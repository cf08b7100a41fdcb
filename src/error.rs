//! Errors that can occur when using the client, and the decoding of the
//! API's error envelope.

use vstd::prelude::*;

use crate::json::{
    contains_key, find_member, first_members, get_member, lemma_first_members, lemma_same_keys,
    map_decodable, map_decodes_to, member, or_null, pairs_decode_to, unique_keys, FromJson,
    JsonValue,
};
use crate::models::shared::{APIVersion, Response};

verus! {

/// All possible errors that can occur when using the client.
#[derive(Debug, PartialEq)]
pub enum ClientError {
    /// The response body could not be read, or was not JSON.
    IOError(String),
    /// The API answered with its error envelope.
    ResponseError {
        /// Response errors.
        errors: APIErrorResponse,
    },
    /// No response was obtained (connection, DNS, timeout).
    TransportError(String),
    /// A query parameter that the endpoint does not allow.
    InvalidQueryParam {
        /// The name of the query parameter.
        name: String,
        /// The value of the query parameter.
        value: String,
    },
    /// The body is JSON but matches neither the success nor the error envelope.
    DecodeError,
}

/// Error response of the API: `{"errors": [object], "jsonapi": version}`.
#[derive(Debug, PartialEq, Clone)]
pub struct APIErrorResponse {
    /// API errors.
    pub errors: Vec<APIError>,
    /// API version.
    pub jsonapi: APIVersion,
}

/// One entry of an error response. Entries are free-form objects: each field
/// holds the member of that name when it has the expected type.
#[derive(Debug, PartialEq, Clone)]
pub struct APIError {
    /// Error code.
    pub code: Option<String>,
    /// Error status.
    pub status: Option<String>,
    /// Error details.
    pub detail: Option<String>,
    /// Error source, when it is an object of strings.
    pub source: Option<Vec<(String, String)>>,
}

/// The member `key` of `j` when it is a string.
pub open spec fn text_member(j: JsonValue, key: Seq<char>) -> Option<String> {
    match member(j, key) {
        Some(JsonValue::Str(s)) => Some(s),
        _ => None,
    }
}

/// Whether `e` is the reading of the error entry `j`.
pub open spec fn error_entry_of(j: JsonValue, e: APIError) -> bool {
    &&& j is Object
    &&& e.code == text_member(j, "code"@)
    &&& e.status == text_member(j, "status"@)
    &&& e.detail == text_member(j, "detail"@)
    &&& match member(j, "source"@) {
        Some(JsonValue::Object(ms)) => if map_decodable::<String>(ms@) {
            match e.source {
                Some(v) => map_decodes_to::<String>(ms@, v@),
                None => false,
            }
        } else {
            e.source is None
        },
        _ => e.source is None,
    }
}

/// Whether every item of an error list is an object.
pub open spec fn all_objects(items: Seq<JsonValue>) -> bool {
    forall|i: int| 0 <= i < items.len() ==> (#[trigger] items[i]) is Object
}

/// Whether `v` holds the readings of the error entries `items`, one for one.
pub open spec fn entries_of(items: Seq<JsonValue>, v: Seq<APIError>) -> bool {
    items.len() == v.len() && forall|i: int| 0 <= i < v.len() ==> error_entry_of(items[i], #[trigger] v[i])
}

/// Whether `j` has the shape of the error envelope.
pub open spec fn is_error_envelope(j: JsonValue) -> bool {
    &&& j is Object
    &&& match member(j, "errors"@) {
        Some(JsonValue::Array(items)) => all_objects(items@),
        _ => false,
    }
    &&& APIVersion::decodable(or_null(member(j, "jsonapi"@)))
}

/// Whether `r` is the decoding of the error envelope `j`.
pub open spec fn error_envelope_of(j: JsonValue, r: APIErrorResponse) -> bool {
    &&& is_error_envelope(j)
    &&& match member(j, "errors"@) {
        Some(JsonValue::Array(items)) => entries_of(items@, r.errors@),
        _ => false,
    }
    &&& APIVersion::decodes_to(or_null(member(j, "jsonapi"@)), r.jsonapi)
}

/// A copy of the member `key` of `j` when it is a string.
fn text_of(j: &JsonValue, key: &str) -> (r: Option<String>)
    ensures
        r == text_member(*j, key@),
{
    match get_member(j, key) {
        Some(JsonValue::Str(s)) => Some(s.clone()),
        _ => None,
    }
}

/// A copy of an object's members when all their values are strings; of
/// members with the same key the first is kept.
fn string_pairs(ms: &Vec<(String, JsonValue)>) -> (r: Option<Vec<(String, String)>>)
    ensures
        match r {
            Some(v) => map_decodable::<String>(ms@) && map_decodes_to::<String>(ms@, v@)
                && unique_keys(v@),
            None => !map_decodable::<String>(ms@),
        },
{
    let mut out: Vec<(String, String)> = Vec::new();
    let mut i: usize = 0;
    assert(ms@.subrange(0, 0) =~= Seq::<(String, JsonValue)>::empty());
    while i < ms.len()
        invariant
            i <= ms@.len(),
            forall|k: int| 0 <= k < i ==> String::decodable(#[trigger] ms@[k].1),
            pairs_decode_to::<String>(first_members(ms@.subrange(0, i as int)), out@),
        decreases ms.len() - i,
    {
        let ghost prefix = ms@.subrange(0, i as int);
        assert(ms@.subrange(0, i + 1).drop_last() =~= prefix);
        proof {
            lemma_first_members(prefix);
            lemma_same_keys::<String>(first_members(prefix), out@);
        }
        match &ms[i].1 {
            JsonValue::Str(s) => {
                if !contains_key(&out, ms[i].0.as_str()) {
                    out.push((ms[i].0.clone(), s.clone()));
                }
            },
            _ => {
                assert(!String::decodable(ms@[i as int].1));
                return None;
            },
        }
        i = i + 1;
    }
    assert(ms@.subrange(0, i as int) =~= ms@);
    proof {
        lemma_first_members(ms@);
        lemma_same_keys::<String>(first_members(ms@), out@);
    }
    Some(out)
}

/// Reads one entry of an error list.
fn error_entry(j: &JsonValue) -> (r: Option<APIError>)
    ensures
        match r {
            Some(e) => error_entry_of(*j, e),
            None => !(*j is Object),
        },
{
    if !matches!(j, JsonValue::Object(_)) {
        return None;
    }
    let source = match get_member(j, "source") {
        Some(JsonValue::Object(ms)) => string_pairs(ms),
        _ => None,
    };
    Some(
        APIError {
            code: text_of(j, "code"),
            status: text_of(j, "status"),
            detail: text_of(j, "detail"),
            source,
        },
    )
}

/// Reads the error list of an error envelope.
fn error_entries(items: &Vec<JsonValue>) -> (r: Option<Vec<APIError>>)
    ensures
        match r {
            Some(v) => all_objects(items@) && entries_of(items@, v@),
            None => !all_objects(items@),
        },
{
    let mut out: Vec<APIError> = Vec::new();
    let mut i: usize = 0;
    while i < items.len()
        invariant
            i <= items@.len(),
            out@.len() == i,
            forall|k: int| 0 <= k < i ==> error_entry_of(items@[k], #[trigger] out@[k]),
        decreases items.len() - i,
    {
        match error_entry(&items[i]) {
            Some(e) => out.push(e),
            None => return None,
        }
        i = i + 1;
    }
    assert forall|k: int| 0 <= k < items@.len() implies (#[trigger] items@[k]) is Object by {
        assert(error_entry_of(items@[k], out@[k]));
    }
    Some(out)
}

/// A copy of the API version held in `j`.
fn api_version_of(j: Option<&JsonValue>) -> (r: Option<APIVersion>)
    ensures
        match j {
            Some(v) => match r {
                Some(a) => APIVersion::decodable(*v) && APIVersion::decodes_to(*v, a),
                None => !APIVersion::decodable(*v),
            },
            None => r is None,
        },
{
    match j {
        Some(v) => match text_of(v, "version") {
            Some(version) => if matches!(v, JsonValue::Object(_)) {
                Some(APIVersion { version })
            } else {
                None
            },
            None => None,
        },
        None => None,
    }
}

/// Decodes the error envelope, when `j` has its shape.
pub fn decode_error_response(j: &JsonValue) -> (r: Option<APIErrorResponse>)
    ensures
        match r {
            Some(e) => error_envelope_of(*j, e),
            None => !is_error_envelope(*j),
        },
{
    let members = match j {
        JsonValue::Object(members) => members,
        _ => return None,
    };
    let errors = match find_member(members, "errors") {
        Some(JsonValue::Array(items)) => match error_entries(items) {
            Some(errors) => errors,
            None => return None,
        },
        _ => return None,
    };
    let jsonapi = match api_version_of(find_member(members, "jsonapi")) {
        Some(v) => v,
        None => return None,
    };
    Some(APIErrorResponse { errors, jsonapi })
}

/// The `Debug` text of a string: the string in double quotes, with the
/// characters that `Debug` escapes escaped.
pub uninterp spec fn debug_quoted(s: Seq<char>) -> Seq<char>;

/// Relies on `<str as Debug>::fmt`, which writes a string in double quotes
/// with escapes; the text depends on the string alone.
#[verifier::external_body]
fn quote(s: &str) -> (r: String)
    ensures
        r@ == debug_quoted(s@),
{
    format!("{:?}", s)
}

/// The text of an optional field: its value, or nothing.
pub open spec fn or_empty(v: Option<String>) -> Seq<char> {
    match v {
        Some(s) => s@,
        None => Seq::empty(),
    }
}

/// The text `key: value` of one member.
pub open spec fn pair_text(p: (String, String)) -> Seq<char> {
    p.0@ + ": "@ + p.1@
}

/// Members separated by `, `.
pub open spec fn pairs_body(s: Seq<(String, String)>) -> Seq<char>
    decreases s.len(),
{
    if s.len() == 0 {
        Seq::empty()
    } else if s.len() == 1 {
        pair_text(s[0])
    } else {
        pairs_body(s.drop_last()) + ", "@ + pair_text(s.last())
    }
}

/// Whether `q` holds the members of `s` with key and value each in their
/// `Debug` text.
pub open spec fn quoted_pairs(s: Seq<(String, String)>, q: Seq<(String, String)>) -> bool {
    s.len() == q.len() && forall|i: int|
        0 <= i < s.len() ==> (#[trigger] q[i]).0@ == debug_quoted(s[i].0@) && q[i].1@
            == debug_quoted(s[i].1@)
}

/// The `Debug` text of one member: `"key": "value"`.
pub open spec fn member_debug(p: (String, String)) -> Seq<char> {
    debug_quoted(p.0@) + ": "@ + debug_quoted(p.1@)
}

/// The members' `Debug` texts, separated by `, `.
pub open spec fn map_debug_body(s: Seq<(String, String)>) -> Seq<char>
    decreases s.len(),
{
    if s.len() == 0 {
        Seq::empty()
    } else if s.len() == 1 {
        member_debug(s[0])
    } else {
        map_debug_body(s.drop_last()) + ", "@ + member_debug(s.last())
    }
}

/// The `Debug` text of a string map: `{"key": "value", ...}`.
pub open spec fn map_debug_text(s: Seq<(String, String)>) -> Seq<char> {
    "{"@ + map_debug_body(s) + "}"@
}

/// Joining quoted members gives the map's `Debug` body.
proof fn lemma_quoted_body(s: Seq<(String, String)>, q: Seq<(String, String)>)
    requires
        quoted_pairs(s, q),
    ensures
        pairs_body(q) == map_debug_body(s),
    decreases s.len(),
{
    if s.len() > 1 {
        assert(quoted_pairs(s.drop_last(), q.drop_last()));
        lemma_quoted_body(s.drop_last(), q.drop_last());
        assert(q.last() == q[q.len() - 1]);
    } else if s.len() == 1 {
        assert(q[0].0@ == debug_quoted(s[0].0@));
    }
}

/// The text `{k: v, ...}` of members whose keys and values are already in
/// their final form.
pub fn braced_pairs(members: &[(String, String)]) -> (r: String)
    ensures
        r@ == "{"@ + pairs_body(members@) + "}"@,
{
    let mut out = String::from_str("{");
    let ghost before = out@;
    let mut i: usize = 0;
    while i < members.len()
        invariant
            i <= members@.len(),
            before == "{"@,
            out@ == before + pairs_body(members@.subrange(0, i as int)),
        decreases members.len() - i,
    {
        let ghost prev = members@.subrange(0, i as int);
        if i > 0 {
            out.append(", ");
        }
        out.append(members[i].0.as_str());
        out.append(": ");
        out.append(members[i].1.as_str());
        assert(members@.subrange(0, i + 1).drop_last() =~= prev);
        i = i + 1;
    }
    assert(members@.subrange(0, i as int) =~= members@);
    out.append("}");
    out
}

/// The `Debug` text of a string map, in member order.
fn map_debug(members: &Vec<(String, String)>) -> (r: String)
    ensures
        r@ == map_debug_text(members@),
{
    let mut quoted: Vec<(String, String)> = Vec::new();
    let mut i: usize = 0;
    while i < members.len()
        invariant
            i <= members@.len(),
            quoted_pairs(members@.subrange(0, i as int), quoted@),
        decreases members.len() - i,
    {
        let k = quote(members[i].0.as_str());
        let v = quote(members[i].1.as_str());
        quoted.push((k, v));
        i = i + 1;
    }
    assert(members@.subrange(0, i as int) =~= members@);
    proof {
        lemma_quoted_body(members@, quoted@);
    }
    braced_pairs(quoted.as_slice())
}

/// The `Debug` text of an API version whose version string is already
/// quoted: `APIVersion { version: "1.0" }`.
pub fn api_version_text(quoted_version: &str) -> (r: String)
    ensures
        r@ == "APIVersion { version: "@ + quoted_version@ + " }"@,
{
    let mut out = String::from_str("APIVersion { version: ");
    out.append(quoted_version);
    out.append(" }");
    out
}

/// The `Debug` text of an API version.
pub open spec fn version_debug(v: APIVersion) -> Seq<char> {
    "APIVersion { version: "@ + debug_quoted(v.version@) + " }"@
}

/// The text of an error entry:
/// `{code: C, status: S[, detail: D][, source: {"k": "v", ...}]}`.
pub open spec fn error_text(e: APIError) -> Seq<char> {
    "{code: "@ + or_empty(e.code) + ", status: "@ + or_empty(e.status) + match e.detail {
        Some(d) => ", detail: "@ + d@,
        None => Seq::empty(),
    } + match e.source {
        Some(src) => ", source: "@ + map_debug_text(src@),
        None => Seq::empty(),
    } + "}"@
}

/// Each entry's text followed by `, `.
pub open spec fn errors_body(s: Seq<APIError>) -> Seq<char>
    decreases s.len(),
{
    if s.len() == 0 {
        Seq::empty()
    } else {
        errors_body(s.drop_last()) + error_text(s.last()) + ", "@
    }
}

/// The text of an error response:
/// `{ errors: (E1, E2, ), api version: APIVersion { version: "V" }}`.
pub open spec fn error_response_text(r: APIErrorResponse) -> Seq<char> {
    "{ errors: ("@ + errors_body(r.errors@) + "), api version: "@ + version_debug(r.jsonapi) + "}"@
}

/// The `Debug` text of a required string field that may be missing: the
/// quoted string, or `None`.
pub open spec fn field_debug(v: Option<String>) -> Seq<char> {
    match v {
        Some(s) => debug_quoted(s@),
        None => "None"@,
    }
}

/// The `Debug` text of an entry:
/// `APIError { code: "C", status: "S", detail: None, source: None }`.
pub open spec fn error_debug(e: APIError) -> Seq<char> {
    "APIError { code: "@ + field_debug(e.code) + ", status: "@ + field_debug(e.status)
        + ", detail: "@ + match e.detail {
        Some(d) => "Some("@ + debug_quoted(d@) + ")"@,
        None => "None"@,
    } + ", source: "@ + match e.source {
        Some(src) => "Some("@ + map_debug_text(src@) + ")"@,
        None => "None"@,
    } + " }"@
}

/// The entries' `Debug` texts, separated by `, `.
pub open spec fn errors_debug_body(s: Seq<APIError>) -> Seq<char>
    decreases s.len(),
{
    if s.len() == 0 {
        Seq::empty()
    } else if s.len() == 1 {
        error_debug(s[0])
    } else {
        errors_debug_body(s.drop_last()) + ", "@ + error_debug(s.last())
    }
}

/// The `Debug` text of an error response:
/// `APIErrorResponse { errors: [..], jsonapi: APIVersion { version: "V" } }`.
pub open spec fn error_response_debug(r: APIErrorResponse) -> Seq<char> {
    "APIErrorResponse { errors: ["@ + errors_debug_body(r.errors@) + "], jsonapi: "@
        + version_debug(r.jsonapi) + " }"@
}

/// Appends an optional field's value, if any.
fn push_opt(out: &mut String, v: &Option<String>)
    ensures
        final(out)@ == old(out)@ + or_empty(*v),
{
    match v {
        Some(s) => out.append(s.as_str()),
        None => {
            assert(old(out)@ + or_empty(*v) =~= old(out)@);
        },
    }
}

/// Appends the `Debug` text of a required field that may be missing.
fn push_field_debug(out: &mut String, v: &Option<String>)
    ensures
        final(out)@ == old(out)@ + field_debug(*v),
{
    match v {
        Some(s) => {
            let q = quote(s.as_str());
            out.append(q.as_str());
        },
        None => out.append("None"),
    }
}

/// The `Debug` text of an API version.
fn version_text(v: &APIVersion) -> (r: String)
    ensures
        r@ == version_debug(*v),
{
    let q = quote(v.version.as_str());
    api_version_text(q.as_str())
}

impl APIError {
    /// A readable text of the entry.
    pub fn to_text(&self) -> (r: String)
        ensures
            r@ == error_text(*self),
    {
        let mut out = String::from_str("{code: ");
        push_opt(&mut out, &self.code);
        out.append(", status: ");
        push_opt(&mut out, &self.status);
        match &self.detail {
            Some(d) => {
                out.append(", detail: ");
                out.append(d.as_str());
            },
            None => {},
        }
        match &self.source {
            Some(src) => {
                out.append(", source: ");
                let text = map_debug(src);
                out.append(text.as_str());
            },
            None => {},
        }
        out.append("}");
        assert(out@ =~= error_text(*self));
        out
    }

    /// The `Debug` text of the entry.
    pub fn debug_text(&self) -> (r: String)
        ensures
            r@ == error_debug(*self),
    {
        let mut out = String::from_str("APIError { code: ");
        push_field_debug(&mut out, &self.code);
        out.append(", status: ");
        push_field_debug(&mut out, &self.status);
        out.append(", detail: ");
        match &self.detail {
            Some(d) => {
                out.append("Some(");
                let q = quote(d.as_str());
                out.append(q.as_str());
                out.append(")");
            },
            None => out.append("None"),
        }
        out.append(", source: ");
        match &self.source {
            Some(src) => {
                out.append("Some(");
                let text = map_debug(src);
                out.append(text.as_str());
                out.append(")");
            },
            None => out.append("None"),
        }
        out.append(" }");
        assert(out@ =~= error_debug(*self));
        out
    }
}

impl APIErrorResponse {
    /// A readable text of the response.
    pub fn to_text(&self) -> (r: String)
        ensures
            r@ == error_response_text(*self),
    {
        let mut out = String::from_str("{ errors: (");
        let ghost before = out@;
        let mut i: usize = 0;
        while i < self.errors.len()
            invariant
                i <= self.errors@.len(),
                out@ == before + errors_body(self.errors@.subrange(0, i as int)),
            decreases self.errors.len() - i,
        {
            let text = self.errors[i].to_text();
            out.append(text.as_str());
            out.append(", ");
            assert(self.errors@.subrange(0, i + 1).drop_last() =~= self.errors@.subrange(0, i as int));
            i = i + 1;
        }
        assert(self.errors@.subrange(0, i as int) =~= self.errors@);
        out.append("), api version: ");
        let version = version_text(&self.jsonapi);
        out.append(version.as_str());
        out.append("}");
        out
    }

    /// The `Debug` text of the response.
    pub fn debug_text(&self) -> (r: String)
        ensures
            r@ == error_response_debug(*self),
    {
        let mut out = String::from_str("APIErrorResponse { errors: [");
        let ghost before = out@;
        let mut i: usize = 0;
        while i < self.errors.len()
            invariant
                i <= self.errors@.len(),
                out@ == before + errors_debug_body(self.errors@.subrange(0, i as int)),
            decreases self.errors.len() - i,
        {
            if i > 0 {
                out.append(", ");
            }
            let text = self.errors[i].debug_text();
            out.append(text.as_str());
            assert(self.errors@.subrange(0, i + 1).drop_last() =~= self.errors@.subrange(0, i as int));
            i = i + 1;
        }
        assert(self.errors@.subrange(0, i as int) =~= self.errors@);
        out.append("], jsonapi: ");
        let version = version_text(&self.jsonapi);
        out.append(version.as_str());
        out.append(" }");
        out
    }
}

/// The text of a client error.
pub open spec fn client_error_text(e: ClientError) -> Seq<char> {
    match e {
        ClientError::IOError(m) => "some kind of I/O error occured: `"@ + m@ + "`"@,
        ClientError::ResponseError { errors } => "HTTP response error: `"@ + error_response_debug(
            errors,
        ) + "`"@,
        ClientError::TransportError(m) => "HTTP transport error: `"@ + m@ + "`"@,
        ClientError::InvalidQueryParam { name, value } => "invalid query parameter: `"@ + name@
            + "="@ + value@ + "`"@,
        ClientError::DecodeError => "response body matches neither the success nor the error envelope"@,
    }
}

impl ClientError {
    /// A readable text of the error.
    pub fn to_text(&self) -> (r: String)
        ensures
            r@ == client_error_text(*self),
    {
        match self {
            ClientError::IOError(m) => {
                let mut out = String::from_str("some kind of I/O error occured: `");
                out.append(m.as_str());
                out.append("`");
                out
            },
            ClientError::ResponseError { errors } => {
                let mut out = String::from_str("HTTP response error: `");
                let text = errors.debug_text();
                out.append(text.as_str());
                out.append("`");
                out
            },
            ClientError::TransportError(m) => {
                let mut out = String::from_str("HTTP transport error: `");
                out.append(m.as_str());
                out.append("`");
                out
            },
            ClientError::InvalidQueryParam { name, value } => {
                let mut out = String::from_str("invalid query parameter: `");
                out.append(name.as_str());
                out.append("=");
                out.append(value.as_str());
                out.append("`");
                out
            },
            ClientError::DecodeError => String::from_str(
                "response body matches neither the success nor the error envelope",
            ),
        }
    }
}

} // verus!
