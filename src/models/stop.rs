//! Data models for stops.

use vstd::prelude::*;

use crate::json::{FromJson, JsonValue};
use crate::models::shared::{code_in, code_of, CodeKind, InvalidCode};

verus! {

/// The kind of place a stop is.
#[derive(Debug, PartialEq, Eq, Clone, Copy, Structural)]
pub enum LocationType {
    /// A stop or platform.
    Stop,
    /// A station.
    Station,
    /// An entrance or exit.
    EntranceExit,
    /// A generic node.
    GenericNode,
}

impl LocationType {
    /// The value of a code, if it is one.
    pub open spec fn from_code(n: u8) -> Option<LocationType> {
        match n {
            0 => Some(LocationType::Stop),
            1 => Some(LocationType::Station),
            2 => Some(LocationType::EntranceExit),
            3 => Some(LocationType::GenericNode),
            _ => None,
        }
    }

    /// The value of a code, if it is one.
    pub fn from_u8(n: u8) -> (r: Option<LocationType>)
        ensures
            r == LocationType::from_code(n),
    {
        match n {
            0 => Some(LocationType::Stop),
            1 => Some(LocationType::Station),
            2 => Some(LocationType::EntranceExit),
            3 => Some(LocationType::GenericNode),
            _ => None,
        }
    }

    /// The code of a value.
    pub open spec fn code(self) -> u8 {
        match self {
            LocationType::Stop => 0,
            LocationType::Station => 1,
            LocationType::EntranceExit => 2,
            LocationType::GenericNode => 3,
        }
    }
}

impl TryFrom<u8> for LocationType {
    type Error = InvalidCode;

    fn try_from(value: u8) -> (r: Result<Self, InvalidCode>) {
        match Self::from_u8(value) {
            Some(x) => Ok(x),
            None => Err(InvalidCode { kind: CodeKind::LocationType, value }),
        }
    }
}

impl vstd::std_specs::convert::TryFromSpecImpl<u8> for LocationType {
    open spec fn obeys_try_from_spec() -> bool {
        true
    }

    open spec fn try_from_spec(v: u8) -> Result<Self, InvalidCode> {
        match LocationType::from_code(v) {
            Some(x) => Ok(x),
            None => Err(InvalidCode { kind: CodeKind::LocationType, value: v }),
        }
    }
}

impl From<LocationType> for u8 {
    fn from(value: LocationType) -> (r: u8) {
        match value {
            LocationType::Stop => 0,
            LocationType::Station => 1,
            LocationType::EntranceExit => 2,
            LocationType::GenericNode => 3,
        }
    }
}

impl vstd::std_specs::convert::FromSpecImpl<LocationType> for u8 {
    open spec fn obeys_from_spec() -> bool {
        true
    }

    open spec fn from_spec(v: LocationType) -> u8 {
        v.code()
    }
}

/// A JSON number holding one of the codes.
impl FromJson for LocationType {
    open spec fn decodes_to(j: JsonValue, v: Self) -> bool {
        code_in(j) matches Some(n) && LocationType::from_code(n) == Some(v)
    }

    open spec fn decodable(j: JsonValue) -> bool {
        code_in(j) matches Some(n) && LocationType::from_code(n) is Some
    }

    fn from_json(j: JsonValue) -> (r: Option<Self>) {
        match code_of(&j) {
            Some(n) => LocationType::from_u8(n),
            None => None,
        }
    }
}

} // verus!
