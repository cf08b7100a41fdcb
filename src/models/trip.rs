//! Data models for trips.

use vstd::prelude::*;

use crate::json::{into_members, member, or_null, take_or_null, FromJson, JsonValue};
use crate::models::shared::{code_in, code_of, CodeKind, InvalidCode, WheelchairAccessible};

verus! {

/// Attributes of a trip.
#[derive(Debug, PartialEq, Clone)]
pub struct TripAttributes {
    /// Whether the trip is wheelchair accessible.
    pub wheelchair_accessible: WheelchairAccessible,
    /// Name of the trip.
    pub name: String,
    /// Headsign of the trip.
    pub headsign: String,
    /// Direction of travel.
    pub direction_id: u8,
    /// Block the trip belongs to.
    pub block_id: String,
    /// Whether bikes are allowed.
    pub bikes_allowed: BikesAllowed,
}

/// Whether bikes are allowed on a trip.
#[derive(Debug, PartialEq, Eq, Clone, Copy, Structural)]
pub enum BikesAllowed {
    /// No information.
    NoInfo,
    /// Allowed.
    Allowed,
    /// Not allowed.
    NotAllowed,
}

impl BikesAllowed {
    /// The value of a code, if it is one.
    pub open spec fn from_code(n: u8) -> Option<BikesAllowed> {
        match n {
            0 => Some(BikesAllowed::NoInfo),
            1 => Some(BikesAllowed::Allowed),
            2 => Some(BikesAllowed::NotAllowed),
            _ => None,
        }
    }

    /// The value of a code, if it is one.
    pub fn from_u8(n: u8) -> (r: Option<BikesAllowed>)
        ensures
            r == BikesAllowed::from_code(n),
    {
        match n {
            0 => Some(BikesAllowed::NoInfo),
            1 => Some(BikesAllowed::Allowed),
            2 => Some(BikesAllowed::NotAllowed),
            _ => None,
        }
    }

    /// The code of a value.
    pub open spec fn code(self) -> u8 {
        match self {
            BikesAllowed::NoInfo => 0,
            BikesAllowed::Allowed => 1,
            BikesAllowed::NotAllowed => 2,
        }
    }
}

impl TryFrom<u8> for BikesAllowed {
    type Error = InvalidCode;

    fn try_from(value: u8) -> (r: Result<Self, InvalidCode>) {
        match Self::from_u8(value) {
            Some(x) => Ok(x),
            None => Err(InvalidCode { kind: CodeKind::BikesAllowed, value }),
        }
    }
}

impl vstd::std_specs::convert::TryFromSpecImpl<u8> for BikesAllowed {
    open spec fn obeys_try_from_spec() -> bool {
        true
    }

    open spec fn try_from_spec(v: u8) -> Result<Self, InvalidCode> {
        match BikesAllowed::from_code(v) {
            Some(x) => Ok(x),
            None => Err(InvalidCode { kind: CodeKind::BikesAllowed, value: v }),
        }
    }
}

impl From<BikesAllowed> for u8 {
    fn from(value: BikesAllowed) -> (r: u8) {
        match value {
            BikesAllowed::NoInfo => 0,
            BikesAllowed::Allowed => 1,
            BikesAllowed::NotAllowed => 2,
        }
    }
}

impl vstd::std_specs::convert::FromSpecImpl<BikesAllowed> for u8 {
    open spec fn obeys_from_spec() -> bool {
        true
    }

    open spec fn from_spec(v: BikesAllowed) -> u8 {
        v.code()
    }
}

/// A JSON number holding one of the codes.
impl FromJson for BikesAllowed {
    open spec fn decodes_to(j: JsonValue, v: Self) -> bool {
        code_in(j) matches Some(n) && BikesAllowed::from_code(n) == Some(v)
    }

    open spec fn decodable(j: JsonValue) -> bool {
        code_in(j) matches Some(n) && BikesAllowed::from_code(n) is Some
    }

    fn from_json(j: JsonValue) -> (r: Option<Self>) {
        match code_of(&j) {
            Some(n) => BikesAllowed::from_u8(n),
            None => None,
        }
    }
}

/// Decodes the attributes of a trip.
impl FromJson for TripAttributes {
    open spec fn decodes_to(j: JsonValue, v: Self) -> bool {
        &&& j is Object
        &&& <WheelchairAccessible as FromJson>::decodes_to(or_null(member(j, "wheelchair_accessible"@)), v.wheelchair_accessible)
        &&& <String as FromJson>::decodes_to(or_null(member(j, "name"@)), v.name)
        &&& <String as FromJson>::decodes_to(or_null(member(j, "headsign"@)), v.headsign)
        &&& <u8 as FromJson>::decodes_to(or_null(member(j, "direction_id"@)), v.direction_id)
        &&& <String as FromJson>::decodes_to(or_null(member(j, "block_id"@)), v.block_id)
        &&& <BikesAllowed as FromJson>::decodes_to(or_null(member(j, "bikes_allowed"@)), v.bikes_allowed)
    }

    open spec fn decodable(j: JsonValue) -> bool {
        &&& j is Object
        &&& <WheelchairAccessible as FromJson>::decodable(or_null(member(j, "wheelchair_accessible"@)))
        &&& <String as FromJson>::decodable(or_null(member(j, "name"@)))
        &&& <String as FromJson>::decodable(or_null(member(j, "headsign"@)))
        &&& <u8 as FromJson>::decodable(or_null(member(j, "direction_id"@)))
        &&& <String as FromJson>::decodable(or_null(member(j, "block_id"@)))
        &&& <BikesAllowed as FromJson>::decodable(or_null(member(j, "bikes_allowed"@)))
    }

    fn from_json(j: JsonValue) -> (r: Option<Self>) {
        let mut ms = match into_members(j) {
            Some(ms) => ms,
            None => return None,
        };
        proof {
            reveal_strlit("wheelchair_accessible");
            reveal_strlit("name");
            reveal_strlit("headsign");
            reveal_strlit("direction_id");
            reveal_strlit("block_id");
            reveal_strlit("bikes_allowed");
            // The member names differ in length or in some character, so taking
            // one member leaves the lookup of the others unchanged.
            assert("wheelchair_accessible"@.len() == 21);
            assert("name"@.len() == 4);
            assert("headsign"@.len() == 8);
            assert("direction_id"@.len() == 12);
            assert("block_id"@.len() == 8);
            assert("bikes_allowed"@.len() == 13);
            assert("headsign"@[0] == 'h');
            assert("block_id"@[0] == 'b');
        }
        let wheelchair_accessible = take_or_null(&mut ms, "wheelchair_accessible");
        let name = take_or_null(&mut ms, "name");
        let headsign = take_or_null(&mut ms, "headsign");
        let direction_id = take_or_null(&mut ms, "direction_id");
        let block_id = take_or_null(&mut ms, "block_id");
        let bikes_allowed = take_or_null(&mut ms, "bikes_allowed");
        let wheelchair_accessible = match <WheelchairAccessible as FromJson>::from_json(wheelchair_accessible) {
            Some(x) => x,
            None => return None,
        };
        let name = match <String as FromJson>::from_json(name) {
            Some(x) => x,
            None => return None,
        };
        let headsign = match <String as FromJson>::from_json(headsign) {
            Some(x) => x,
            None => return None,
        };
        let direction_id = match <u8 as FromJson>::from_json(direction_id) {
            Some(x) => x,
            None => return None,
        };
        let block_id = match <String as FromJson>::from_json(block_id) {
            Some(x) => x,
            None => return None,
        };
        let bikes_allowed = match <BikesAllowed as FromJson>::from_json(bikes_allowed) {
            Some(x) => x,
            None => return None,
        };
        Some(TripAttributes { wheelchair_accessible, name, headsign, direction_id, block_id, bikes_allowed })
    }
}

} // verus!
