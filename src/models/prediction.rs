//! Data models for predictions.

use vstd::prelude::*;

use crate::json::{into_members, member, or_null, str_eq, take_or_null, FromJson, JsonValue};
use crate::models::datetime::DateTime;

verus! {

/// Attributes of a prediction.
#[derive(Debug, PartialEq, Clone)]
pub struct PredictionAttributes {
    /// Position of the stop in the trip.
    pub stop_sequence: Option<u64>,
    /// Status text.
    pub status: Option<String>,
    /// Direction of travel.
    pub direction_id: u8,
    /// Predicted departure time.
    pub departure_time: Option<DateTime>,
    /// Predicted arrival time.
    pub arrival_time: Option<DateTime>,
    /// Relation of the prediction to the schedule.
    pub schedule_relationship: Option<ScheduleRelationship>,
}

/// Relation of a prediction to the schedule.
#[derive(Debug, PartialEq, Eq, Clone, Copy, Structural)]
pub enum ScheduleRelationship {
    /// Added.
    Added,
    /// Cancelled.
    Cancelled,
    /// No data.
    NoData,
    /// Skipped.
    Skipped,
    /// Unscheduled.
    Unscheduled,
}

impl ScheduleRelationship {
    /// The name of a value in the API.
    pub open spec fn spec_name(self) -> Seq<char> {
        match self {
            ScheduleRelationship::Added => "ADDED"@,
            ScheduleRelationship::Cancelled => "CANCELLED"@,
            ScheduleRelationship::NoData => "NO_DATA"@,
            ScheduleRelationship::Skipped => "SKIPPED"@,
            ScheduleRelationship::Unscheduled => "UNSCHEDULED"@,
        }
    }

    /// The value of a name, if it is one.
    pub open spec fn from_spec_name(s: Seq<char>) -> Option<ScheduleRelationship> {
        if s == "ADDED"@ {
            Some(ScheduleRelationship::Added)
        } else if s == "CANCELLED"@ {
            Some(ScheduleRelationship::Cancelled)
        } else if s == "NO_DATA"@ {
            Some(ScheduleRelationship::NoData)
        } else if s == "SKIPPED"@ {
            Some(ScheduleRelationship::Skipped)
        } else if s == "UNSCHEDULED"@ {
            Some(ScheduleRelationship::Unscheduled)
        } else {
            None
        }
    }

    /// The name of the value in the API.
    pub fn name(&self) -> (r: &'static str)
        ensures
            r@ == self.spec_name(),
    {
        match self {
            ScheduleRelationship::Added => "ADDED",
            ScheduleRelationship::Cancelled => "CANCELLED",
            ScheduleRelationship::NoData => "NO_DATA",
            ScheduleRelationship::Skipped => "SKIPPED",
            ScheduleRelationship::Unscheduled => "UNSCHEDULED",
        }
    }

    /// The value of a name, if it is one.
    pub fn from_name(s: &str) -> (r: Option<ScheduleRelationship>)
        ensures
            r == ScheduleRelationship::from_spec_name(s@),
    {
        if str_eq(s, "ADDED") {
            Some(ScheduleRelationship::Added)
        } else if str_eq(s, "CANCELLED") {
            Some(ScheduleRelationship::Cancelled)
        } else if str_eq(s, "NO_DATA") {
            Some(ScheduleRelationship::NoData)
        } else if str_eq(s, "SKIPPED") {
            Some(ScheduleRelationship::Skipped)
        } else if str_eq(s, "UNSCHEDULED") {
            Some(ScheduleRelationship::Unscheduled)
        } else {
            None
        }
    }
}

/// A JSON string holding one of the names.
impl FromJson for ScheduleRelationship {
    open spec fn decodes_to(j: JsonValue, v: Self) -> bool {
        j matches JsonValue::Str(s) && ScheduleRelationship::from_spec_name(s@) == Some(v)
    }

    open spec fn decodable(j: JsonValue) -> bool {
        j matches JsonValue::Str(s) && ScheduleRelationship::from_spec_name(s@) is Some
    }

    fn from_json(j: JsonValue) -> (r: Option<Self>) {
        match j {
            JsonValue::Str(s) => ScheduleRelationship::from_name(s.as_str()),
            _ => None,
        }
    }
}

/// Decodes the attributes of a prediction.
impl FromJson for PredictionAttributes {
    open spec fn decodes_to(j: JsonValue, v: Self) -> bool {
        &&& j is Object
        &&& <Option<u64> as FromJson>::decodes_to(or_null(member(j, "stop_sequence"@)), v.stop_sequence)
        &&& <Option<String> as FromJson>::decodes_to(or_null(member(j, "status"@)), v.status)
        &&& <u8 as FromJson>::decodes_to(or_null(member(j, "direction_id"@)), v.direction_id)
        &&& <Option<DateTime> as FromJson>::decodes_to(or_null(member(j, "departure_time"@)), v.departure_time)
        &&& <Option<DateTime> as FromJson>::decodes_to(or_null(member(j, "arrival_time"@)), v.arrival_time)
        &&& <Option<ScheduleRelationship> as FromJson>::decodes_to(or_null(member(j, "schedule_relationship"@)), v.schedule_relationship)
    }

    open spec fn decodable(j: JsonValue) -> bool {
        &&& j is Object
        &&& <Option<u64> as FromJson>::decodable(or_null(member(j, "stop_sequence"@)))
        &&& <Option<String> as FromJson>::decodable(or_null(member(j, "status"@)))
        &&& <u8 as FromJson>::decodable(or_null(member(j, "direction_id"@)))
        &&& <Option<DateTime> as FromJson>::decodable(or_null(member(j, "departure_time"@)))
        &&& <Option<DateTime> as FromJson>::decodable(or_null(member(j, "arrival_time"@)))
        &&& <Option<ScheduleRelationship> as FromJson>::decodable(or_null(member(j, "schedule_relationship"@)))
    }

    fn from_json(j: JsonValue) -> (r: Option<Self>) {
        let mut ms = match into_members(j) {
            Some(ms) => ms,
            None => return None,
        };
        proof {
            reveal_strlit("stop_sequence");
            reveal_strlit("status");
            reveal_strlit("direction_id");
            reveal_strlit("departure_time");
            reveal_strlit("arrival_time");
            reveal_strlit("schedule_relationship");
            // The member names differ in length or in some character, so taking
            // one member leaves the lookup of the others unchanged.
            assert("stop_sequence"@.len() == 13);
            assert("status"@.len() == 6);
            assert("direction_id"@.len() == 12);
            assert("departure_time"@.len() == 14);
            assert("arrival_time"@.len() == 12);
            assert("schedule_relationship"@.len() == 21);
            assert("direction_id"@[0] == 'd');
            assert("arrival_time"@[0] == 'a');
        }
        let stop_sequence = take_or_null(&mut ms, "stop_sequence");
        let status = take_or_null(&mut ms, "status");
        let direction_id = take_or_null(&mut ms, "direction_id");
        let departure_time = take_or_null(&mut ms, "departure_time");
        let arrival_time = take_or_null(&mut ms, "arrival_time");
        let schedule_relationship = take_or_null(&mut ms, "schedule_relationship");
        let stop_sequence = match <Option<u64> as FromJson>::from_json(stop_sequence) {
            Some(x) => x,
            None => return None,
        };
        let status = match <Option<String> as FromJson>::from_json(status) {
            Some(x) => x,
            None => return None,
        };
        let direction_id = match <u8 as FromJson>::from_json(direction_id) {
            Some(x) => x,
            None => return None,
        };
        let departure_time = match <Option<DateTime> as FromJson>::from_json(departure_time) {
            Some(x) => x,
            None => return None,
        };
        let arrival_time = match <Option<DateTime> as FromJson>::from_json(arrival_time) {
            Some(x) => x,
            None => return None,
        };
        let schedule_relationship = match <Option<ScheduleRelationship> as FromJson>::from_json(schedule_relationship) {
            Some(x) => x,
            None => return None,
        };
        Some(PredictionAttributes { stop_sequence, status, direction_id, departure_time, arrival_time, schedule_relationship })
    }
}

} // verus!
