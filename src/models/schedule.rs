//! Data models for schedules.

use vstd::prelude::*;

use crate::json::{into_members, member, or_null, take_or_null, FromJson, JsonValue};
use crate::models::datetime::DateTime;
use crate::models::shared::{code_in, code_of, CodeKind, InvalidCode};

verus! {

/// Attributes of a schedule entry.
#[derive(Debug, PartialEq, Clone)]
pub struct ScheduleAttributes {
    /// Whether the times are exact or estimates.
    pub timepoint: ScheduleTimepoint,
    /// Position of the stop in the trip.
    pub stop_sequence: Option<u64>,
    /// Headsign at the stop, if it differs from the trip's.
    pub stop_headsign: Option<String>,
    /// How riders board.
    pub pickup_type: VehiclePresence,
    /// How riders leave.
    pub drop_off_type: VehiclePresence,
    /// Direction of travel.
    pub direction_id: u8,
    /// Departure time.
    pub departure_time: Option<DateTime>,
    /// Arrival time.
    pub arrival_time: Option<DateTime>,
}

/// Whether the times of a schedule are exact or estimates.
#[derive(Debug, PartialEq, Eq, Clone, Copy, Structural)]
pub enum ScheduleTimepoint {
    /// Exact times.
    Exact,
    /// Estimated times.
    Estimates,
}

impl From<bool> for ScheduleTimepoint {
    fn from(value: bool) -> (r: Self) {
        if value {
            Self::Exact
        } else {
            Self::Estimates
        }
    }
}

impl vstd::std_specs::convert::FromSpecImpl<bool> for ScheduleTimepoint {
    open spec fn obeys_from_spec() -> bool {
        true
    }

    open spec fn from_spec(v: bool) -> Self {
        if v {
            ScheduleTimepoint::Exact
        } else {
            ScheduleTimepoint::Estimates
        }
    }
}

impl From<ScheduleTimepoint> for bool {
    fn from(value: ScheduleTimepoint) -> (r: bool) {
        match value {
            ScheduleTimepoint::Exact => true,
            ScheduleTimepoint::Estimates => false,
        }
    }
}

impl vstd::std_specs::convert::FromSpecImpl<ScheduleTimepoint> for bool {
    open spec fn obeys_from_spec() -> bool {
        true
    }

    open spec fn from_spec(v: ScheduleTimepoint) -> bool {
        v == ScheduleTimepoint::Exact
    }
}

/// A JSON boolean: `true` for exact times.
impl FromJson for ScheduleTimepoint {
    open spec fn decodes_to(j: JsonValue, v: Self) -> bool {
        j matches JsonValue::Bool(b) && (v == ScheduleTimepoint::Exact) == b
    }

    open spec fn decodable(j: JsonValue) -> bool {
        j is Bool
    }

    fn from_json(j: JsonValue) -> (r: Option<Self>) {
        match j {
            JsonValue::Bool(b) => Some(ScheduleTimepoint::from(b)),
            _ => None,
        }
    }
}

/// How riders board or leave a vehicle at a stop.
#[derive(Debug, PartialEq, Eq, Clone, Copy, Structural)]
pub enum VehiclePresence {
    /// Regularly scheduled.
    RegularlyScheduled,
    /// Not available.
    NotAvailable,
    /// The agency must be phoned.
    MustPhoneAgency,
    /// The driver must be told.
    MustCoordinateWithDriver,
}

impl VehiclePresence {
    /// The value of a code, if it is one.
    pub open spec fn from_code(n: u8) -> Option<VehiclePresence> {
        match n {
            0 => Some(VehiclePresence::RegularlyScheduled),
            1 => Some(VehiclePresence::NotAvailable),
            2 => Some(VehiclePresence::MustPhoneAgency),
            3 => Some(VehiclePresence::MustCoordinateWithDriver),
            _ => None,
        }
    }

    /// The value of a code, if it is one.
    pub fn from_u8(n: u8) -> (r: Option<VehiclePresence>)
        ensures
            r == VehiclePresence::from_code(n),
    {
        match n {
            0 => Some(VehiclePresence::RegularlyScheduled),
            1 => Some(VehiclePresence::NotAvailable),
            2 => Some(VehiclePresence::MustPhoneAgency),
            3 => Some(VehiclePresence::MustCoordinateWithDriver),
            _ => None,
        }
    }

    /// The code of a value.
    pub open spec fn code(self) -> u8 {
        match self {
            VehiclePresence::RegularlyScheduled => 0,
            VehiclePresence::NotAvailable => 1,
            VehiclePresence::MustPhoneAgency => 2,
            VehiclePresence::MustCoordinateWithDriver => 3,
        }
    }
}

impl TryFrom<u8> for VehiclePresence {
    type Error = InvalidCode;

    fn try_from(value: u8) -> (r: Result<Self, InvalidCode>) {
        match Self::from_u8(value) {
            Some(x) => Ok(x),
            None => Err(InvalidCode { kind: CodeKind::VehiclePresence, value }),
        }
    }
}

impl vstd::std_specs::convert::TryFromSpecImpl<u8> for VehiclePresence {
    open spec fn obeys_try_from_spec() -> bool {
        true
    }

    open spec fn try_from_spec(v: u8) -> Result<Self, InvalidCode> {
        match VehiclePresence::from_code(v) {
            Some(x) => Ok(x),
            None => Err(InvalidCode { kind: CodeKind::VehiclePresence, value: v }),
        }
    }
}

impl From<VehiclePresence> for u8 {
    fn from(value: VehiclePresence) -> (r: u8) {
        match value {
            VehiclePresence::RegularlyScheduled => 0,
            VehiclePresence::NotAvailable => 1,
            VehiclePresence::MustPhoneAgency => 2,
            VehiclePresence::MustCoordinateWithDriver => 3,
        }
    }
}

impl vstd::std_specs::convert::FromSpecImpl<VehiclePresence> for u8 {
    open spec fn obeys_from_spec() -> bool {
        true
    }

    open spec fn from_spec(v: VehiclePresence) -> u8 {
        v.code()
    }
}

/// A JSON number holding one of the codes.
impl FromJson for VehiclePresence {
    open spec fn decodes_to(j: JsonValue, v: Self) -> bool {
        code_in(j) matches Some(n) && VehiclePresence::from_code(n) == Some(v)
    }

    open spec fn decodable(j: JsonValue) -> bool {
        code_in(j) matches Some(n) && VehiclePresence::from_code(n) is Some
    }

    fn from_json(j: JsonValue) -> (r: Option<Self>) {
        match code_of(&j) {
            Some(n) => VehiclePresence::from_u8(n),
            None => None,
        }
    }
}

/// Decodes the attributes of a schedule entry.
impl FromJson for ScheduleAttributes {
    open spec fn decodes_to(j: JsonValue, v: Self) -> bool {
        &&& j is Object
        &&& <ScheduleTimepoint as FromJson>::decodes_to(or_null(member(j, "timepoint"@)), v.timepoint)
        &&& <Option<u64> as FromJson>::decodes_to(or_null(member(j, "stop_sequence"@)), v.stop_sequence)
        &&& <Option<String> as FromJson>::decodes_to(or_null(member(j, "stop_headsign"@)), v.stop_headsign)
        &&& <VehiclePresence as FromJson>::decodes_to(or_null(member(j, "pickup_type"@)), v.pickup_type)
        &&& <VehiclePresence as FromJson>::decodes_to(or_null(member(j, "drop_off_type"@)), v.drop_off_type)
        &&& <u8 as FromJson>::decodes_to(or_null(member(j, "direction_id"@)), v.direction_id)
        &&& <Option<DateTime> as FromJson>::decodes_to(or_null(member(j, "departure_time"@)), v.departure_time)
        &&& <Option<DateTime> as FromJson>::decodes_to(or_null(member(j, "arrival_time"@)), v.arrival_time)
    }

    open spec fn decodable(j: JsonValue) -> bool {
        &&& j is Object
        &&& <ScheduleTimepoint as FromJson>::decodable(or_null(member(j, "timepoint"@)))
        &&& <Option<u64> as FromJson>::decodable(or_null(member(j, "stop_sequence"@)))
        &&& <Option<String> as FromJson>::decodable(or_null(member(j, "stop_headsign"@)))
        &&& <VehiclePresence as FromJson>::decodable(or_null(member(j, "pickup_type"@)))
        &&& <VehiclePresence as FromJson>::decodable(or_null(member(j, "drop_off_type"@)))
        &&& <u8 as FromJson>::decodable(or_null(member(j, "direction_id"@)))
        &&& <Option<DateTime> as FromJson>::decodable(or_null(member(j, "departure_time"@)))
        &&& <Option<DateTime> as FromJson>::decodable(or_null(member(j, "arrival_time"@)))
    }

    fn from_json(j: JsonValue) -> (r: Option<Self>) {
        let mut ms = match into_members(j) {
            Some(ms) => ms,
            None => return None,
        };
        proof {
            reveal_strlit("timepoint");
            reveal_strlit("stop_sequence");
            reveal_strlit("stop_headsign");
            reveal_strlit("pickup_type");
            reveal_strlit("drop_off_type");
            reveal_strlit("direction_id");
            reveal_strlit("departure_time");
            reveal_strlit("arrival_time");
            // The member names differ in length or in some character, so taking
            // one member leaves the lookup of the others unchanged.
            assert("timepoint"@.len() == 9);
            assert("stop_sequence"@.len() == 13);
            assert("stop_headsign"@.len() == 13);
            assert("pickup_type"@.len() == 11);
            assert("drop_off_type"@.len() == 13);
            assert("direction_id"@.len() == 12);
            assert("departure_time"@.len() == 14);
            assert("arrival_time"@.len() == 12);
            assert("stop_sequence"@[5] == 's');
            assert("stop_headsign"@[5] == 'h');
            assert("stop_sequence"@[0] == 's');
            assert("drop_off_type"@[0] == 'd');
            assert("stop_headsign"@[0] == 's');
            assert("direction_id"@[0] == 'd');
            assert("arrival_time"@[0] == 'a');
        }
        let timepoint = take_or_null(&mut ms, "timepoint");
        let stop_sequence = take_or_null(&mut ms, "stop_sequence");
        let stop_headsign = take_or_null(&mut ms, "stop_headsign");
        let pickup_type = take_or_null(&mut ms, "pickup_type");
        let drop_off_type = take_or_null(&mut ms, "drop_off_type");
        let direction_id = take_or_null(&mut ms, "direction_id");
        let departure_time = take_or_null(&mut ms, "departure_time");
        let arrival_time = take_or_null(&mut ms, "arrival_time");
        let timepoint = match <ScheduleTimepoint as FromJson>::from_json(timepoint) {
            Some(x) => x,
            None => return None,
        };
        let stop_sequence = match <Option<u64> as FromJson>::from_json(stop_sequence) {
            Some(x) => x,
            None => return None,
        };
        let stop_headsign = match <Option<String> as FromJson>::from_json(stop_headsign) {
            Some(x) => x,
            None => return None,
        };
        let pickup_type = match <VehiclePresence as FromJson>::from_json(pickup_type) {
            Some(x) => x,
            None => return None,
        };
        let drop_off_type = match <VehiclePresence as FromJson>::from_json(drop_off_type) {
            Some(x) => x,
            None => return None,
        };
        let direction_id = match <u8 as FromJson>::from_json(direction_id) {
            Some(x) => x,
            None => return None,
        };
        let departure_time = match <Option<DateTime> as FromJson>::from_json(departure_time) {
            Some(x) => x,
            None => return None,
        };
        let arrival_time = match <Option<DateTime> as FromJson>::from_json(arrival_time) {
            Some(x) => x,
            None => return None,
        };
        Some(ScheduleAttributes { timepoint, stop_sequence, stop_headsign, pickup_type, drop_off_type, direction_id, departure_time, arrival_time })
    }
}

} // verus!
