//! Data model for route patterns.

use vstd::prelude::*;

use crate::json::{into_members, member, or_null, take_or_null, FromJson, JsonValue};
use crate::models::shared::{code_in, code_of, CodeKind, InvalidCode};

verus! {

/// Attributes of a route pattern.
#[derive(Debug, PartialEq, Clone)]
pub struct RoutePatternAttributes {
    /// Direction in which the pattern's trips travel.
    pub direction_id: u8,
    /// Name of the pattern.
    pub name: String,
    /// Order of the pattern among the route's patterns.
    pub sort_order: u64,
    /// Description of when the pattern runs, if it is not always.
    pub time_desc: Option<String>,
    /// How common the pattern is.
    pub typicality: RoutePatternTypicality,
}

/// How common a route pattern is.
#[derive(Debug, PartialEq, Eq, Clone, Copy, Structural)]
pub enum RoutePatternTypicality {
    /// Not defined.
    Undefined,
    /// Typical pattern.
    Typical,
    /// Deviation from the typical pattern.
    Deviation,
    /// Highly atypical pattern.
    HighlyAtypical,
    /// Diversion from normal service.
    NormalServiceDiversion,
}

impl RoutePatternTypicality {
    /// The value of a code, if it is one.
    pub open spec fn from_code(n: u8) -> Option<RoutePatternTypicality> {
        match n {
            0 => Some(RoutePatternTypicality::Undefined),
            1 => Some(RoutePatternTypicality::Typical),
            2 => Some(RoutePatternTypicality::Deviation),
            3 => Some(RoutePatternTypicality::HighlyAtypical),
            4 => Some(RoutePatternTypicality::NormalServiceDiversion),
            _ => None,
        }
    }

    /// The value of a code, if it is one.
    pub fn from_u8(n: u8) -> (r: Option<RoutePatternTypicality>)
        ensures
            r == RoutePatternTypicality::from_code(n),
    {
        match n {
            0 => Some(RoutePatternTypicality::Undefined),
            1 => Some(RoutePatternTypicality::Typical),
            2 => Some(RoutePatternTypicality::Deviation),
            3 => Some(RoutePatternTypicality::HighlyAtypical),
            4 => Some(RoutePatternTypicality::NormalServiceDiversion),
            _ => None,
        }
    }

    /// The code of a value.
    pub open spec fn code(self) -> u8 {
        match self {
            RoutePatternTypicality::Undefined => 0,
            RoutePatternTypicality::Typical => 1,
            RoutePatternTypicality::Deviation => 2,
            RoutePatternTypicality::HighlyAtypical => 3,
            RoutePatternTypicality::NormalServiceDiversion => 4,
        }
    }
}

impl TryFrom<u8> for RoutePatternTypicality {
    type Error = InvalidCode;

    fn try_from(value: u8) -> (r: Result<Self, InvalidCode>) {
        match Self::from_u8(value) {
            Some(x) => Ok(x),
            None => Err(InvalidCode { kind: CodeKind::RoutePatternTypicality, value }),
        }
    }
}

impl vstd::std_specs::convert::TryFromSpecImpl<u8> for RoutePatternTypicality {
    open spec fn obeys_try_from_spec() -> bool {
        true
    }

    open spec fn try_from_spec(v: u8) -> Result<Self, InvalidCode> {
        match RoutePatternTypicality::from_code(v) {
            Some(x) => Ok(x),
            None => Err(InvalidCode { kind: CodeKind::RoutePatternTypicality, value: v }),
        }
    }
}

impl From<RoutePatternTypicality> for u8 {
    fn from(value: RoutePatternTypicality) -> (r: u8) {
        match value {
            RoutePatternTypicality::Undefined => 0,
            RoutePatternTypicality::Typical => 1,
            RoutePatternTypicality::Deviation => 2,
            RoutePatternTypicality::HighlyAtypical => 3,
            RoutePatternTypicality::NormalServiceDiversion => 4,
        }
    }
}

impl vstd::std_specs::convert::FromSpecImpl<RoutePatternTypicality> for u8 {
    open spec fn obeys_from_spec() -> bool {
        true
    }

    open spec fn from_spec(v: RoutePatternTypicality) -> u8 {
        v.code()
    }
}

/// A JSON number holding one of the codes.
impl FromJson for RoutePatternTypicality {
    open spec fn decodes_to(j: JsonValue, v: Self) -> bool {
        code_in(j) matches Some(n) && RoutePatternTypicality::from_code(n) == Some(v)
    }

    open spec fn decodable(j: JsonValue) -> bool {
        code_in(j) matches Some(n) && RoutePatternTypicality::from_code(n) is Some
    }

    fn from_json(j: JsonValue) -> (r: Option<Self>) {
        match code_of(&j) {
            Some(n) => RoutePatternTypicality::from_u8(n),
            None => None,
        }
    }
}

/// Decodes the attributes of a route pattern.
impl FromJson for RoutePatternAttributes {
    open spec fn decodes_to(j: JsonValue, v: Self) -> bool {
        &&& j is Object
        &&& <u8 as FromJson>::decodes_to(or_null(member(j, "direction_id"@)), v.direction_id)
        &&& <String as FromJson>::decodes_to(or_null(member(j, "name"@)), v.name)
        &&& <u64 as FromJson>::decodes_to(or_null(member(j, "sort_order"@)), v.sort_order)
        &&& <Option<String> as FromJson>::decodes_to(or_null(member(j, "time_desc"@)), v.time_desc)
        &&& <RoutePatternTypicality as FromJson>::decodes_to(or_null(member(j, "typicality"@)), v.typicality)
    }

    open spec fn decodable(j: JsonValue) -> bool {
        &&& j is Object
        &&& <u8 as FromJson>::decodable(or_null(member(j, "direction_id"@)))
        &&& <String as FromJson>::decodable(or_null(member(j, "name"@)))
        &&& <u64 as FromJson>::decodable(or_null(member(j, "sort_order"@)))
        &&& <Option<String> as FromJson>::decodable(or_null(member(j, "time_desc"@)))
        &&& <RoutePatternTypicality as FromJson>::decodable(or_null(member(j, "typicality"@)))
    }

    fn from_json(j: JsonValue) -> (r: Option<Self>) {
        let mut ms = match into_members(j) {
            Some(ms) => ms,
            None => return None,
        };
        proof {
            reveal_strlit("direction_id");
            reveal_strlit("name");
            reveal_strlit("sort_order");
            reveal_strlit("time_desc");
            reveal_strlit("typicality");
            // The member names differ in length or in some character, so taking
            // one member leaves the lookup of the others unchanged.
            assert("direction_id"@.len() == 12);
            assert("name"@.len() == 4);
            assert("sort_order"@.len() == 10);
            assert("time_desc"@.len() == 9);
            assert("typicality"@.len() == 10);
            assert("sort_order"@[0] == 's');
            assert("typicality"@[0] == 't');
        }
        let direction_id = take_or_null(&mut ms, "direction_id");
        let name = take_or_null(&mut ms, "name");
        let sort_order = take_or_null(&mut ms, "sort_order");
        let time_desc = take_or_null(&mut ms, "time_desc");
        let typicality = take_or_null(&mut ms, "typicality");
        let direction_id = match <u8 as FromJson>::from_json(direction_id) {
            Some(x) => x,
            None => return None,
        };
        let name = match <String as FromJson>::from_json(name) {
            Some(x) => x,
            None => return None,
        };
        let sort_order = match <u64 as FromJson>::from_json(sort_order) {
            Some(x) => x,
            None => return None,
        };
        let time_desc = match <Option<String> as FromJson>::from_json(time_desc) {
            Some(x) => x,
            None => return None,
        };
        let typicality = match <RoutePatternTypicality as FromJson>::from_json(typicality) {
            Some(x) => x,
            None => return None,
        };
        Some(RoutePatternAttributes { direction_id, name, sort_order, time_desc, typicality })
    }
}

} // verus!
