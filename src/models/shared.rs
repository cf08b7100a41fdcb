//! Data models shared by every resource: the response envelope, the
//! resource wrapper and its relationships, and the codes of transport modes
//! and accessibility.

use vstd::prelude::*;

use crate::text::{decimal, push_decimal};

use crate::json::{
    JsonNumber,
    decode_opt_map, member, opt_map_decodable, opt_map_decodes_to, or_null, take_member,
    take_or_null, into_members, lookup, FromJson, JsonValue,
};

verus! {

/// V3 API response: the data payload of a successful call.
#[derive(Debug, PartialEq)]
pub struct Response<D> {
    /// Data payload of the response.
    pub data: D,
    /// JSON API version.
    pub jsonapi: APIVersion,
    /// Links to different pages of the endpoint.
    pub links: Option<Links>,
}

/// Version of the JSON API.
#[derive(Debug, PartialEq, Clone)]
pub struct APIVersion {
    /// Version as a string.
    pub version: String,
}

/// Links to the first, next, and last pages of the endpoint.
#[derive(Debug, PartialEq, Clone)]
pub struct Links {
    /// Link to the first page of the endpoint.
    pub first: Option<String>,
    /// Link to the next page of the endpoint.
    pub next: Option<String>,
    /// Link to the last page of the endpoint.
    pub last: Option<String>,
}

/// A resource of the API: common metadata with the model attributes.
#[derive(Debug, PartialEq)]
pub struct Resource<Attribute> {
    /// The JSON API resource type.
    pub resource_type: String,
    /// The JSON API resource id.
    pub id: String,
    /// Related endpoint links, by name, in document order.
    pub links: Option<Vec<(String, String)>>,
    /// Model attributes.
    pub attributes: Attribute,
    /// Relationships to other data models, by name, in document order.
    pub relationships: Option<Vec<(String, Relationships)>>,
}

/// A model's relationship to other data models.
#[derive(Debug, PartialEq, Clone)]
pub struct Relationships {
    /// Another model that is related to this data model.
    pub data: Option<RelationshipAtom>,
}

/// A reference to a related resource, by type and id.
#[derive(Debug, PartialEq, Clone)]
pub struct RelationshipAtom {
    /// The type of the related model.
    pub relationship_type: String,
    /// The ID of the related model.
    pub id: String,
}

/// `{"version": string}`.
impl FromJson for APIVersion {
    open spec fn decodes_to(j: JsonValue, v: Self) -> bool {
        j is Object && String::decodes_to(or_null(member(j, "version"@)), v.version)
    }

    open spec fn decodable(j: JsonValue) -> bool {
        j is Object && String::decodable(or_null(member(j, "version"@)))
    }

    fn from_json(j: JsonValue) -> (r: Option<Self>) {
        let mut ms = match into_members(j) {
            Some(ms) => ms,
            None => return None,
        };
        let version = take_or_null(&mut ms, "version");
        match String::from_json(version) {
            Some(version) => Some(APIVersion { version }),
            None => None,
        }
    }
}

/// `{"first": string?, "next": string?, "last": string?}`; a missing member is `null`.
impl FromJson for Links {
    open spec fn decodes_to(j: JsonValue, v: Self) -> bool {
        &&& j is Object
        &&& Option::<String>::decodes_to(or_null(member(j, "first"@)), v.first)
        &&& Option::<String>::decodes_to(or_null(member(j, "next"@)), v.next)
        &&& Option::<String>::decodes_to(or_null(member(j, "last"@)), v.last)
    }

    open spec fn decodable(j: JsonValue) -> bool {
        &&& j is Object
        &&& Option::<String>::decodable(or_null(member(j, "first"@)))
        &&& Option::<String>::decodable(or_null(member(j, "next"@)))
        &&& Option::<String>::decodable(or_null(member(j, "last"@)))
    }

    fn from_json(j: JsonValue) -> (r: Option<Self>) {
        let mut ms = match into_members(j) {
            Some(ms) => ms,
            None => return None,
        };
        proof {
            reveal_strlit("first");
            reveal_strlit("next");
            reveal_strlit("last");
            // The member names differ in length or in some character, so taking
            // one member leaves the lookup of the others unchanged.
            assert("first"@.len() == 5 && "next"@[0] == 'n' && "last"@[0] == 'l');
        }
        let first = take_or_null(&mut ms, "first");
        let next = take_or_null(&mut ms, "next");
        let last = take_or_null(&mut ms, "last");
        match (
            Option::<String>::from_json(first),
            Option::<String>::from_json(next),
            Option::<String>::from_json(last),
        ) {
            (Some(first), Some(next), Some(last)) => Some(Links { first, next, last }),
            _ => None,
        }
    }
}

/// `{"type": string, "id": string}`.
impl FromJson for RelationshipAtom {
    open spec fn decodes_to(j: JsonValue, v: Self) -> bool {
        &&& j is Object
        &&& String::decodes_to(or_null(member(j, "type"@)), v.relationship_type)
        &&& String::decodes_to(or_null(member(j, "id"@)), v.id)
    }

    open spec fn decodable(j: JsonValue) -> bool {
        &&& j is Object
        &&& String::decodable(or_null(member(j, "type"@)))
        &&& String::decodable(or_null(member(j, "id"@)))
    }

    fn from_json(j: JsonValue) -> (r: Option<Self>) {
        let mut ms = match into_members(j) {
            Some(ms) => ms,
            None => return None,
        };
        proof {
            reveal_strlit("type");
            reveal_strlit("id");
            // The member names differ in length or in some character, so taking
            // one member leaves the lookup of the others unchanged.
            assert("type"@.len() == 4 && "id"@.len() == 2);
        }
        let relationship_type = take_or_null(&mut ms, "type");
        let id = take_or_null(&mut ms, "id");
        match (String::from_json(relationship_type), String::from_json(id)) {
            (Some(relationship_type), Some(id)) => Some(
                RelationshipAtom { relationship_type, id },
            ),
            _ => None,
        }
    }
}

/// `{"data": atom?}`; a missing member is `null`.
impl FromJson for Relationships {
    open spec fn decodes_to(j: JsonValue, v: Self) -> bool {
        j is Object && Option::<RelationshipAtom>::decodes_to(or_null(member(j, "data"@)), v.data)
    }

    open spec fn decodable(j: JsonValue) -> bool {
        j is Object && Option::<RelationshipAtom>::decodable(or_null(member(j, "data"@)))
    }

    fn from_json(j: JsonValue) -> (r: Option<Self>) {
        let mut ms = match into_members(j) {
            Some(ms) => ms,
            None => return None,
        };
        let data = take_or_null(&mut ms, "data");
        match Option::<RelationshipAtom>::from_json(data) {
            Some(data) => Some(Relationships { data }),
            None => None,
        }
    }
}

/// `{"type": string, "id": string, "links": {string}?, "attributes": A,
/// "relationships": {relationships}?}`; a missing optional member is `null`,
/// `attributes` must be present.
impl<A: FromJson> FromJson for Resource<A> {
    open spec fn decodes_to(j: JsonValue, v: Self) -> bool {
        &&& j is Object
        &&& String::decodes_to(or_null(member(j, "type"@)), v.resource_type)
        &&& String::decodes_to(or_null(member(j, "id"@)), v.id)
        &&& opt_map_decodes_to::<String>(or_null(member(j, "links"@)), v.links)
        &&& match member(j, "attributes"@) {
            Some(a) => A::decodes_to(a, v.attributes),
            None => false,
        }
        &&& opt_map_decodes_to::<Relationships>(
            or_null(member(j, "relationships"@)),
            v.relationships,
        )
    }

    open spec fn decodable(j: JsonValue) -> bool {
        &&& j is Object
        &&& String::decodable(or_null(member(j, "type"@)))
        &&& String::decodable(or_null(member(j, "id"@)))
        &&& opt_map_decodable::<String>(or_null(member(j, "links"@)))
        &&& match member(j, "attributes"@) {
            Some(a) => A::decodable(a),
            None => false,
        }
        &&& opt_map_decodable::<Relationships>(or_null(member(j, "relationships"@)))
    }

    fn from_json(j: JsonValue) -> (r: Option<Self>) {
        let mut ms = match into_members(j) {
            Some(ms) => ms,
            None => return None,
        };
        proof {
            reveal_strlit("type");
            reveal_strlit("id");
            reveal_strlit("links");
            reveal_strlit("attributes");
            reveal_strlit("relationships");
            // The member names differ in length or in some character, so taking
            // one member leaves the lookup of the others unchanged.
            assert("type"@.len() == 4 && "id"@.len() == 2 && "links"@.len() == 5);
        }
        assert("attributes"@.len() == 10 && "relationships"@.len() == 13);
        let resource_type = take_or_null(&mut ms, "type");
        let id = take_or_null(&mut ms, "id");
        let links = take_or_null(&mut ms, "links");
        let attributes = take_member(&mut ms, "attributes");
        let relationships = take_or_null(&mut ms, "relationships");
        let resource_type = match String::from_json(resource_type) {
            Some(t) => t,
            None => return None,
        };
        let id = match String::from_json(id) {
            Some(id) => id,
            None => return None,
        };
        let links = match decode_opt_map::<String>(links) {
            Some(l) => l,
            None => return None,
        };
        let attributes = match attributes {
            Some(a) => match A::from_json(a) {
                Some(a) => a,
                None => return None,
            },
            None => return None,
        };
        let relationships = match decode_opt_map::<Relationships>(relationships) {
            Some(r) => r,
            None => return None,
        };
        Some(Resource { resource_type, id, links, attributes, relationships })
    }
}

/// `{"data": D, "jsonapi": version, "links": links?}`; `data` and `jsonapi`
/// must be present.
impl<D: FromJson> FromJson for Response<D> {
    open spec fn decodes_to(j: JsonValue, v: Self) -> bool {
        &&& j is Object
        &&& match member(j, "data"@) {
            Some(d) => D::decodes_to(d, v.data),
            None => false,
        }
        &&& APIVersion::decodes_to(or_null(member(j, "jsonapi"@)), v.jsonapi)
        &&& Option::<Links>::decodes_to(or_null(member(j, "links"@)), v.links)
    }

    open spec fn decodable(j: JsonValue) -> bool {
        &&& j is Object
        &&& match member(j, "data"@) {
            Some(d) => D::decodable(d),
            None => false,
        }
        &&& APIVersion::decodable(or_null(member(j, "jsonapi"@)))
        &&& Option::<Links>::decodable(or_null(member(j, "links"@)))
    }

    fn from_json(j: JsonValue) -> (r: Option<Self>) {
        let mut ms = match into_members(j) {
            Some(ms) => ms,
            None => return None,
        };
        proof {
            reveal_strlit("data");
            reveal_strlit("jsonapi");
            reveal_strlit("links");
            // The member names differ in length or in some character, so taking
            // one member leaves the lookup of the others unchanged.
            assert("data"@.len() == 4 && "jsonapi"@.len() == 7 && "links"@.len() == 5);
        }
        let data = take_member(&mut ms, "data");
        let jsonapi = take_or_null(&mut ms, "jsonapi");
        let links = take_or_null(&mut ms, "links");
        let data = match data {
            Some(d) => match D::from_json(d) {
                Some(d) => d,
                None => return None,
            },
            None => return None,
        };
        let jsonapi = match APIVersion::from_json(jsonapi) {
            Some(v) => v,
            None => return None,
        };
        let links = match Option::<Links>::from_json(links) {
            Some(l) => l,
            None => return None,
        };
        Some(Response { data, jsonapi, links })
    }
}

/// The code types whose values the API sends as small integers.
#[derive(Debug, PartialEq, Eq, Clone, Copy, Structural)]
pub enum CodeKind {
    /// [RouteType].
    RouteType,
    /// [WheelchairAccessible].
    WheelchairAccessible,
    /// Route pattern typicality.
    RoutePatternTypicality,
    /// Vehicle presence at a stop.
    VehiclePresence,
    /// Schedule typicality.
    ScheduleTypicality,
    /// Day of the week.
    Day,
    /// Stop location type.
    LocationType,
    /// Whether bikes are allowed.
    BikesAllowed,
}

/// A number that is not a code of its kind.
#[derive(Debug, PartialEq, Eq, Clone, Copy, Structural)]
pub struct InvalidCode {
    /// The code type that was expected.
    pub kind: CodeKind,
    /// The number received.
    pub value: u8,
}

/// The start of the message of an invalid code of each kind.
pub open spec fn code_label(kind: CodeKind) -> Seq<char> {
    match kind {
        CodeKind::RouteType => "invalid route type value: "@,
        CodeKind::WheelchairAccessible => "invalid wheelchair accessibility value: "@,
        CodeKind::RoutePatternTypicality => "invalid route pattern typicality: "@,
        CodeKind::VehiclePresence => "invalid vehicle presence value: "@,
        CodeKind::ScheduleTypicality => "invalid schedule typicality value: "@,
        CodeKind::Day => "invalid day value: "@,
        CodeKind::LocationType => "invalid location type value: "@,
        CodeKind::BikesAllowed => "invalid bikes allowed value: "@,
    }
}

impl CodeKind {
    /// The start of the message of an invalid code of this kind.
    pub fn label(&self) -> (r: &'static str)
        ensures
            r@ == code_label(*self),
    {
        match self {
            CodeKind::RouteType => "invalid route type value: ",
            CodeKind::WheelchairAccessible => "invalid wheelchair accessibility value: ",
            CodeKind::RoutePatternTypicality => "invalid route pattern typicality: ",
            CodeKind::VehiclePresence => "invalid vehicle presence value: ",
            CodeKind::ScheduleTypicality => "invalid schedule typicality value: ",
            CodeKind::Day => "invalid day value: ",
            CodeKind::LocationType => "invalid location type value: ",
            CodeKind::BikesAllowed => "invalid bikes allowed value: ",
        }
    }
}

impl InvalidCode {
    /// The message of the error, such as `invalid route type value: 5`.
    pub fn message(&self) -> (r: String)
        ensures
            r@ == code_label(self.kind) + decimal(self.value as nat),
    {
        let mut out = String::from_str(self.kind.label());
        push_decimal(&mut out, self.value as u32);
        out
    }
}

/// The code that a JSON value holds: a non-negative integer below 256.
pub open spec fn code_in(j: JsonValue) -> Option<u8> {
    match j {
        JsonValue::Number(JsonNumber::Unsigned(n)) => if n < 256 {
            Some(n as u8)
        } else {
            None
        },
        _ => None,
    }
}

/// The code that a JSON value holds.
pub fn code_of(j: &JsonValue) -> (r: Option<u8>)
    ensures
        r == code_in(*j),
{
    match j {
        JsonValue::Number(JsonNumber::Unsigned(n)) => if *n < 256 {
            Some(*n as u8)
        } else {
            None
        },
        _ => None,
    }
}

/// The type of transportation something can support.
#[derive(Debug, PartialEq, Eq, Clone, Copy, Structural)]
pub enum RouteType {
    /// Light rail transportation.
    LightRail,
    /// Heavy rail transportation.
    HeavyRail,
    /// Commuter rail transportation.
    CommuterRail,
    /// Bus transportation.
    Bus,
    /// Ferry transportation.
    Ferry,
}

impl RouteType {
    /// The value of a code, if it is one.
    pub open spec fn from_code(n: u8) -> Option<RouteType> {
        match n {
            0 => Some(RouteType::LightRail),
            1 => Some(RouteType::HeavyRail),
            2 => Some(RouteType::CommuterRail),
            3 => Some(RouteType::Bus),
            4 => Some(RouteType::Ferry),
            _ => None,
        }
    }

    /// The value of a code, if it is one.
    pub fn from_u8(n: u8) -> (r: Option<RouteType>)
        ensures
            r == RouteType::from_code(n),
    {
        match n {
            0 => Some(RouteType::LightRail),
            1 => Some(RouteType::HeavyRail),
            2 => Some(RouteType::CommuterRail),
            3 => Some(RouteType::Bus),
            4 => Some(RouteType::Ferry),
            _ => None,
        }
    }

    /// The code of a value.
    pub open spec fn code(self) -> u8 {
        match self {
            RouteType::LightRail => 0,
            RouteType::HeavyRail => 1,
            RouteType::CommuterRail => 2,
            RouteType::Bus => 3,
            RouteType::Ferry => 4,
        }
    }
}

impl TryFrom<u8> for RouteType {
    type Error = InvalidCode;

    fn try_from(value: u8) -> (r: Result<Self, InvalidCode>) {
        match Self::from_u8(value) {
            Some(x) => Ok(x),
            None => Err(InvalidCode { kind: CodeKind::RouteType, value }),
        }
    }
}

impl vstd::std_specs::convert::TryFromSpecImpl<u8> for RouteType {
    open spec fn obeys_try_from_spec() -> bool {
        true
    }

    open spec fn try_from_spec(v: u8) -> Result<Self, InvalidCode> {
        match RouteType::from_code(v) {
            Some(x) => Ok(x),
            None => Err(InvalidCode { kind: CodeKind::RouteType, value: v }),
        }
    }
}

impl From<RouteType> for u8 {
    fn from(value: RouteType) -> (r: u8) {
        match value {
            RouteType::LightRail => 0,
            RouteType::HeavyRail => 1,
            RouteType::CommuterRail => 2,
            RouteType::Bus => 3,
            RouteType::Ferry => 4,
        }
    }
}

impl vstd::std_specs::convert::FromSpecImpl<RouteType> for u8 {
    open spec fn obeys_from_spec() -> bool {
        true
    }

    open spec fn from_spec(v: RouteType) -> u8 {
        v.code()
    }
}

/// A JSON number holding one of the codes.
impl FromJson for RouteType {
    open spec fn decodes_to(j: JsonValue, v: Self) -> bool {
        code_in(j) matches Some(n) && RouteType::from_code(n) == Some(v)
    }

    open spec fn decodable(j: JsonValue) -> bool {
        code_in(j) matches Some(n) && RouteType::from_code(n) is Some
    }

    fn from_json(j: JsonValue) -> (r: Option<Self>) {
        match code_of(&j) {
            Some(n) => RouteType::from_u8(n),
            None => None,
        }
    }
}

/// Whether something is wheelchair accessible.
#[derive(Debug, PartialEq, Eq, Clone, Copy, Structural)]
pub enum WheelchairAccessible {
    /// No information.
    NoInfo,
    /// Accessible.
    Accessible,
    /// Inaccessible.
    Inaccessible,
}

impl WheelchairAccessible {
    /// The value of a code, if it is one.
    pub open spec fn from_code(n: u8) -> Option<WheelchairAccessible> {
        match n {
            0 => Some(WheelchairAccessible::NoInfo),
            1 => Some(WheelchairAccessible::Accessible),
            2 => Some(WheelchairAccessible::Inaccessible),
            _ => None,
        }
    }

    /// The value of a code, if it is one.
    pub fn from_u8(n: u8) -> (r: Option<WheelchairAccessible>)
        ensures
            r == WheelchairAccessible::from_code(n),
    {
        match n {
            0 => Some(WheelchairAccessible::NoInfo),
            1 => Some(WheelchairAccessible::Accessible),
            2 => Some(WheelchairAccessible::Inaccessible),
            _ => None,
        }
    }

    /// The code of a value.
    pub open spec fn code(self) -> u8 {
        match self {
            WheelchairAccessible::NoInfo => 0,
            WheelchairAccessible::Accessible => 1,
            WheelchairAccessible::Inaccessible => 2,
        }
    }
}

impl TryFrom<u8> for WheelchairAccessible {
    type Error = InvalidCode;

    fn try_from(value: u8) -> (r: Result<Self, InvalidCode>) {
        match Self::from_u8(value) {
            Some(x) => Ok(x),
            None => Err(InvalidCode { kind: CodeKind::WheelchairAccessible, value }),
        }
    }
}

impl vstd::std_specs::convert::TryFromSpecImpl<u8> for WheelchairAccessible {
    open spec fn obeys_try_from_spec() -> bool {
        true
    }

    open spec fn try_from_spec(v: u8) -> Result<Self, InvalidCode> {
        match WheelchairAccessible::from_code(v) {
            Some(x) => Ok(x),
            None => Err(InvalidCode { kind: CodeKind::WheelchairAccessible, value: v }),
        }
    }
}

impl From<WheelchairAccessible> for u8 {
    fn from(value: WheelchairAccessible) -> (r: u8) {
        match value {
            WheelchairAccessible::NoInfo => 0,
            WheelchairAccessible::Accessible => 1,
            WheelchairAccessible::Inaccessible => 2,
        }
    }
}

impl vstd::std_specs::convert::FromSpecImpl<WheelchairAccessible> for u8 {
    open spec fn obeys_from_spec() -> bool {
        true
    }

    open spec fn from_spec(v: WheelchairAccessible) -> u8 {
        v.code()
    }
}

/// A JSON number holding one of the codes.
impl FromJson for WheelchairAccessible {
    open spec fn decodes_to(j: JsonValue, v: Self) -> bool {
        code_in(j) matches Some(n) && WheelchairAccessible::from_code(n) == Some(v)
    }

    open spec fn decodable(j: JsonValue) -> bool {
        code_in(j) matches Some(n) && WheelchairAccessible::from_code(n) is Some
    }

    fn from_json(j: JsonValue) -> (r: Option<Self>) {
        match code_of(&j) {
            Some(n) => WheelchairAccessible::from_u8(n),
            None => None,
        }
    }
}

} // verus!
