//! Data models for vehicles.

use vstd::prelude::*;

use crate::json::{str_eq, FromJson, JsonValue};

verus! {

/// How full a vehicle is.
#[derive(Debug, PartialEq, Eq, Clone, Copy, Structural)]
pub enum OccupancyStatus {
    /// Many seats available.
    ManySeatsAvailable,
    /// Few seats available.
    FewSeatsAvailable,
    /// Full.
    Full,
}

impl OccupancyStatus {
    /// The name of a value in the API.
    pub open spec fn spec_name(self) -> Seq<char> {
        match self {
            OccupancyStatus::ManySeatsAvailable => "MANY_SEATS_AVAILABLE"@,
            OccupancyStatus::FewSeatsAvailable => "FEW_SEATS_AVAILABLE"@,
            OccupancyStatus::Full => "FULL"@,
        }
    }

    /// The value of a name, if it is one.
    pub open spec fn from_spec_name(s: Seq<char>) -> Option<OccupancyStatus> {
        if s == "MANY_SEATS_AVAILABLE"@ {
            Some(OccupancyStatus::ManySeatsAvailable)
        } else if s == "FEW_SEATS_AVAILABLE"@ {
            Some(OccupancyStatus::FewSeatsAvailable)
        } else if s == "FULL"@ {
            Some(OccupancyStatus::Full)
        } else {
            None
        }
    }

    /// The name of the value in the API.
    pub fn name(&self) -> (r: &'static str)
        ensures
            r@ == self.spec_name(),
    {
        match self {
            OccupancyStatus::ManySeatsAvailable => "MANY_SEATS_AVAILABLE",
            OccupancyStatus::FewSeatsAvailable => "FEW_SEATS_AVAILABLE",
            OccupancyStatus::Full => "FULL",
        }
    }

    /// The value of a name, if it is one.
    pub fn from_name(s: &str) -> (r: Option<OccupancyStatus>)
        ensures
            r == OccupancyStatus::from_spec_name(s@),
    {
        if str_eq(s, "MANY_SEATS_AVAILABLE") {
            Some(OccupancyStatus::ManySeatsAvailable)
        } else if str_eq(s, "FEW_SEATS_AVAILABLE") {
            Some(OccupancyStatus::FewSeatsAvailable)
        } else if str_eq(s, "FULL") {
            Some(OccupancyStatus::Full)
        } else {
            None
        }
    }
}

/// A JSON string holding one of the names.
impl FromJson for OccupancyStatus {
    open spec fn decodes_to(j: JsonValue, v: Self) -> bool {
        j matches JsonValue::Str(s) && OccupancyStatus::from_spec_name(s@) == Some(v)
    }

    open spec fn decodable(j: JsonValue) -> bool {
        j matches JsonValue::Str(s) && OccupancyStatus::from_spec_name(s@) is Some
    }

    fn from_json(j: JsonValue) -> (r: Option<Self>) {
        match j {
            JsonValue::Str(s) => OccupancyStatus::from_name(s.as_str()),
            _ => None,
        }
    }
}

/// Where a vehicle is relative to its next stop.
#[derive(Debug, PartialEq, Eq, Clone, Copy, Structural)]
pub enum CurrentStatus {
    /// Arriving at the stop.
    IncomingAt,
    /// Stopped at the stop.
    StoppedAt,
    /// On the way to the stop.
    InTransitTo,
}

impl CurrentStatus {
    /// The name of a value in the API.
    pub open spec fn spec_name(self) -> Seq<char> {
        match self {
            CurrentStatus::IncomingAt => "INCOMING_AT"@,
            CurrentStatus::StoppedAt => "STOPPED_AT"@,
            CurrentStatus::InTransitTo => "IN_TRANSIT_TO"@,
        }
    }

    /// The value of a name, if it is one.
    pub open spec fn from_spec_name(s: Seq<char>) -> Option<CurrentStatus> {
        if s == "INCOMING_AT"@ {
            Some(CurrentStatus::IncomingAt)
        } else if s == "STOPPED_AT"@ {
            Some(CurrentStatus::StoppedAt)
        } else if s == "IN_TRANSIT_TO"@ {
            Some(CurrentStatus::InTransitTo)
        } else {
            None
        }
    }

    /// The name of the value in the API.
    pub fn name(&self) -> (r: &'static str)
        ensures
            r@ == self.spec_name(),
    {
        match self {
            CurrentStatus::IncomingAt => "INCOMING_AT",
            CurrentStatus::StoppedAt => "STOPPED_AT",
            CurrentStatus::InTransitTo => "IN_TRANSIT_TO",
        }
    }

    /// The value of a name, if it is one.
    pub fn from_name(s: &str) -> (r: Option<CurrentStatus>)
        ensures
            r == CurrentStatus::from_spec_name(s@),
    {
        if str_eq(s, "INCOMING_AT") {
            Some(CurrentStatus::IncomingAt)
        } else if str_eq(s, "STOPPED_AT") {
            Some(CurrentStatus::StoppedAt)
        } else if str_eq(s, "IN_TRANSIT_TO") {
            Some(CurrentStatus::InTransitTo)
        } else {
            None
        }
    }
}

/// A JSON string holding one of the names.
impl FromJson for CurrentStatus {
    open spec fn decodes_to(j: JsonValue, v: Self) -> bool {
        j matches JsonValue::Str(s) && CurrentStatus::from_spec_name(s@) == Some(v)
    }

    open spec fn decodable(j: JsonValue) -> bool {
        j matches JsonValue::Str(s) && CurrentStatus::from_spec_name(s@) is Some
    }

    fn from_json(j: JsonValue) -> (r: Option<Self>) {
        match j {
            JsonValue::Str(s) => CurrentStatus::from_name(s.as_str()),
            _ => None,
        }
    }
}

} // verus!
