//! Data models for services.

use vstd::prelude::*;

use crate::json::{into_members, member, or_null, take_or_null, FromJson, JsonValue};
use crate::models::datetime::Date;
use crate::models::shared::{code_in, code_of, CodeKind, InvalidCode};

verus! {

/// Attributes of a service: the days on which a set of trips runs.
#[derive(Debug, PartialEq, Clone)]
pub struct ServiceAttributes {
    /// Days of the week on which the service runs.
    pub valid_days: Vec<Day>,
    /// First day of the service.
    pub start_date: Date,
    /// How typical the service is.
    pub schedule_typicality: ScheduleTypicality,
    /// Type of schedule.
    pub schedule_type: Option<String>,
    /// Name of the schedule.
    pub schedule_name: Option<String>,
    /// Notes on the removed dates.
    pub removed_dates_notes: Vec<Option<String>>,
    /// Dates on which the service does not run.
    pub removed_dates: Vec<Date>,
    /// First day of the rating.
    pub rating_start_date: Option<Date>,
    /// Last day of the rating.
    pub rating_end_date: Option<Date>,
    /// Description of the rating.
    pub rating_description: Option<String>,
    /// Last day of the service.
    pub end_date: Date,
    /// Description of the service.
    pub description: Option<String>,
    /// Notes on the added dates.
    pub added_dates_notes: Vec<Option<String>>,
    /// Dates on which the service runs in addition.
    pub added_dates: Vec<Date>,
}

/// How typical a schedule is.
#[derive(Debug, PartialEq, Eq, Clone, Copy, Structural)]
pub enum ScheduleTypicality {
    /// Not defined.
    Undefined,
    /// Typical service.
    Typical,
    /// Extra service.
    Extra,
    /// Reduced service.
    Reduced,
    /// Disrupted service.
    Disrupted,
    /// Atypical service.
    Atypical,
}

impl ScheduleTypicality {
    /// The value of a code, if it is one.
    pub open spec fn from_code(n: u8) -> Option<ScheduleTypicality> {
        match n {
            0 => Some(ScheduleTypicality::Undefined),
            1 => Some(ScheduleTypicality::Typical),
            2 => Some(ScheduleTypicality::Extra),
            3 => Some(ScheduleTypicality::Reduced),
            4 => Some(ScheduleTypicality::Disrupted),
            5 => Some(ScheduleTypicality::Atypical),
            _ => None,
        }
    }

    /// The value of a code, if it is one.
    pub fn from_u8(n: u8) -> (r: Option<ScheduleTypicality>)
        ensures
            r == ScheduleTypicality::from_code(n),
    {
        match n {
            0 => Some(ScheduleTypicality::Undefined),
            1 => Some(ScheduleTypicality::Typical),
            2 => Some(ScheduleTypicality::Extra),
            3 => Some(ScheduleTypicality::Reduced),
            4 => Some(ScheduleTypicality::Disrupted),
            5 => Some(ScheduleTypicality::Atypical),
            _ => None,
        }
    }

    /// The code of a value.
    pub open spec fn code(self) -> u8 {
        match self {
            ScheduleTypicality::Undefined => 0,
            ScheduleTypicality::Typical => 1,
            ScheduleTypicality::Extra => 2,
            ScheduleTypicality::Reduced => 3,
            ScheduleTypicality::Disrupted => 4,
            ScheduleTypicality::Atypical => 5,
        }
    }
}

impl TryFrom<u8> for ScheduleTypicality {
    type Error = InvalidCode;

    fn try_from(value: u8) -> (r: Result<Self, InvalidCode>) {
        match Self::from_u8(value) {
            Some(x) => Ok(x),
            None => Err(InvalidCode { kind: CodeKind::ScheduleTypicality, value }),
        }
    }
}

impl vstd::std_specs::convert::TryFromSpecImpl<u8> for ScheduleTypicality {
    open spec fn obeys_try_from_spec() -> bool {
        true
    }

    open spec fn try_from_spec(v: u8) -> Result<Self, InvalidCode> {
        match ScheduleTypicality::from_code(v) {
            Some(x) => Ok(x),
            None => Err(InvalidCode { kind: CodeKind::ScheduleTypicality, value: v }),
        }
    }
}

impl From<ScheduleTypicality> for u8 {
    fn from(value: ScheduleTypicality) -> (r: u8) {
        match value {
            ScheduleTypicality::Undefined => 0,
            ScheduleTypicality::Typical => 1,
            ScheduleTypicality::Extra => 2,
            ScheduleTypicality::Reduced => 3,
            ScheduleTypicality::Disrupted => 4,
            ScheduleTypicality::Atypical => 5,
        }
    }
}

impl vstd::std_specs::convert::FromSpecImpl<ScheduleTypicality> for u8 {
    open spec fn obeys_from_spec() -> bool {
        true
    }

    open spec fn from_spec(v: ScheduleTypicality) -> u8 {
        v.code()
    }
}

/// A JSON number holding one of the codes.
impl FromJson for ScheduleTypicality {
    open spec fn decodes_to(j: JsonValue, v: Self) -> bool {
        code_in(j) matches Some(n) && ScheduleTypicality::from_code(n) == Some(v)
    }

    open spec fn decodable(j: JsonValue) -> bool {
        code_in(j) matches Some(n) && ScheduleTypicality::from_code(n) is Some
    }

    fn from_json(j: JsonValue) -> (r: Option<Self>) {
        match code_of(&j) {
            Some(n) => ScheduleTypicality::from_u8(n),
            None => None,
        }
    }
}

/// Day of the week.
#[derive(Debug, PartialEq, Eq, Clone, Copy, Structural)]
pub enum Day {
    /// Monday.
    Monday,
    /// Tuesday.
    Tuesday,
    /// Wednesday.
    Wednesday,
    /// Thursday.
    Thursday,
    /// Friday.
    Friday,
    /// Saturday.
    Saturday,
    /// Sunday.
    Sunday,
}

impl Day {
    /// The value of a code, if it is one.
    pub open spec fn from_code(n: u8) -> Option<Day> {
        match n {
            1 => Some(Day::Monday),
            2 => Some(Day::Tuesday),
            3 => Some(Day::Wednesday),
            4 => Some(Day::Thursday),
            5 => Some(Day::Friday),
            6 => Some(Day::Saturday),
            7 => Some(Day::Sunday),
            _ => None,
        }
    }

    /// The value of a code, if it is one.
    pub fn from_u8(n: u8) -> (r: Option<Day>)
        ensures
            r == Day::from_code(n),
    {
        match n {
            1 => Some(Day::Monday),
            2 => Some(Day::Tuesday),
            3 => Some(Day::Wednesday),
            4 => Some(Day::Thursday),
            5 => Some(Day::Friday),
            6 => Some(Day::Saturday),
            7 => Some(Day::Sunday),
            _ => None,
        }
    }

    /// The code of a value.
    pub open spec fn code(self) -> u8 {
        match self {
            Day::Monday => 1,
            Day::Tuesday => 2,
            Day::Wednesday => 3,
            Day::Thursday => 4,
            Day::Friday => 5,
            Day::Saturday => 6,
            Day::Sunday => 7,
        }
    }
}

impl TryFrom<u8> for Day {
    type Error = InvalidCode;

    fn try_from(value: u8) -> (r: Result<Self, InvalidCode>) {
        match Self::from_u8(value) {
            Some(x) => Ok(x),
            None => Err(InvalidCode { kind: CodeKind::Day, value }),
        }
    }
}

impl vstd::std_specs::convert::TryFromSpecImpl<u8> for Day {
    open spec fn obeys_try_from_spec() -> bool {
        true
    }

    open spec fn try_from_spec(v: u8) -> Result<Self, InvalidCode> {
        match Day::from_code(v) {
            Some(x) => Ok(x),
            None => Err(InvalidCode { kind: CodeKind::Day, value: v }),
        }
    }
}

impl From<Day> for u8 {
    fn from(value: Day) -> (r: u8) {
        match value {
            Day::Monday => 1,
            Day::Tuesday => 2,
            Day::Wednesday => 3,
            Day::Thursday => 4,
            Day::Friday => 5,
            Day::Saturday => 6,
            Day::Sunday => 7,
        }
    }
}

impl vstd::std_specs::convert::FromSpecImpl<Day> for u8 {
    open spec fn obeys_from_spec() -> bool {
        true
    }

    open spec fn from_spec(v: Day) -> u8 {
        v.code()
    }
}

/// A JSON number holding one of the codes.
impl FromJson for Day {
    open spec fn decodes_to(j: JsonValue, v: Self) -> bool {
        code_in(j) matches Some(n) && Day::from_code(n) == Some(v)
    }

    open spec fn decodable(j: JsonValue) -> bool {
        code_in(j) matches Some(n) && Day::from_code(n) is Some
    }

    fn from_json(j: JsonValue) -> (r: Option<Self>) {
        match code_of(&j) {
            Some(n) => Day::from_u8(n),
            None => None,
        }
    }
}

/// Decodes the attributes of a service.
impl FromJson for ServiceAttributes {
    open spec fn decodes_to(j: JsonValue, v: Self) -> bool {
        &&& j is Object
        &&& <Vec<Day> as FromJson>::decodes_to(or_null(member(j, "valid_days"@)), v.valid_days)
        &&& <Date as FromJson>::decodes_to(or_null(member(j, "start_date"@)), v.start_date)
        &&& <ScheduleTypicality as FromJson>::decodes_to(or_null(member(j, "schedule_typicality"@)), v.schedule_typicality)
        &&& <Option<String> as FromJson>::decodes_to(or_null(member(j, "schedule_type"@)), v.schedule_type)
        &&& <Option<String> as FromJson>::decodes_to(or_null(member(j, "schedule_name"@)), v.schedule_name)
        &&& <Vec<Option<String>> as FromJson>::decodes_to(or_null(member(j, "removed_dates_notes"@)), v.removed_dates_notes)
        &&& <Vec<Date> as FromJson>::decodes_to(or_null(member(j, "removed_dates"@)), v.removed_dates)
        &&& <Option<Date> as FromJson>::decodes_to(or_null(member(j, "rating_start_date"@)), v.rating_start_date)
        &&& <Option<Date> as FromJson>::decodes_to(or_null(member(j, "rating_end_date"@)), v.rating_end_date)
        &&& <Option<String> as FromJson>::decodes_to(or_null(member(j, "rating_description"@)), v.rating_description)
        &&& <Date as FromJson>::decodes_to(or_null(member(j, "end_date"@)), v.end_date)
        &&& <Option<String> as FromJson>::decodes_to(or_null(member(j, "description"@)), v.description)
        &&& <Vec<Option<String>> as FromJson>::decodes_to(or_null(member(j, "added_dates_notes"@)), v.added_dates_notes)
        &&& <Vec<Date> as FromJson>::decodes_to(or_null(member(j, "added_dates"@)), v.added_dates)
    }

    open spec fn decodable(j: JsonValue) -> bool {
        &&& j is Object
        &&& <Vec<Day> as FromJson>::decodable(or_null(member(j, "valid_days"@)))
        &&& <Date as FromJson>::decodable(or_null(member(j, "start_date"@)))
        &&& <ScheduleTypicality as FromJson>::decodable(or_null(member(j, "schedule_typicality"@)))
        &&& <Option<String> as FromJson>::decodable(or_null(member(j, "schedule_type"@)))
        &&& <Option<String> as FromJson>::decodable(or_null(member(j, "schedule_name"@)))
        &&& <Vec<Option<String>> as FromJson>::decodable(or_null(member(j, "removed_dates_notes"@)))
        &&& <Vec<Date> as FromJson>::decodable(or_null(member(j, "removed_dates"@)))
        &&& <Option<Date> as FromJson>::decodable(or_null(member(j, "rating_start_date"@)))
        &&& <Option<Date> as FromJson>::decodable(or_null(member(j, "rating_end_date"@)))
        &&& <Option<String> as FromJson>::decodable(or_null(member(j, "rating_description"@)))
        &&& <Date as FromJson>::decodable(or_null(member(j, "end_date"@)))
        &&& <Option<String> as FromJson>::decodable(or_null(member(j, "description"@)))
        &&& <Vec<Option<String>> as FromJson>::decodable(or_null(member(j, "added_dates_notes"@)))
        &&& <Vec<Date> as FromJson>::decodable(or_null(member(j, "added_dates"@)))
    }

    fn from_json(j: JsonValue) -> (r: Option<Self>) {
        let mut ms = match into_members(j) {
            Some(ms) => ms,
            None => return None,
        };
        proof {
            reveal_strlit("valid_days");
            reveal_strlit("start_date");
            reveal_strlit("schedule_typicality");
            reveal_strlit("schedule_type");
            reveal_strlit("schedule_name");
            reveal_strlit("removed_dates_notes");
            reveal_strlit("removed_dates");
            reveal_strlit("rating_start_date");
            reveal_strlit("rating_end_date");
            reveal_strlit("rating_description");
            reveal_strlit("end_date");
            reveal_strlit("description");
            reveal_strlit("added_dates_notes");
            reveal_strlit("added_dates");
            // The member names differ in length or in some character, so taking
            // one member leaves the lookup of the others unchanged.
            assert("valid_days"@.len() == 10);
            assert("start_date"@.len() == 10);
            assert("schedule_typicality"@.len() == 19);
            assert("schedule_type"@.len() == 13);
            assert("schedule_name"@.len() == 13);
            assert("removed_dates_notes"@.len() == 19);
            assert("removed_dates"@.len() == 13);
            assert("rating_start_date"@.len() == 17);
            assert("rating_end_date"@.len() == 15);
            assert("rating_description"@.len() == 18);
            assert("end_date"@.len() == 8);
            assert("description"@.len() == 11);
            assert("added_dates_notes"@.len() == 17);
            assert("added_dates"@.len() == 11);
            assert("valid_days"@[0] == 'v');
            assert("start_date"@[0] == 's');
            assert("schedule_typicality"@[0] == 's');
            assert("removed_dates_notes"@[0] == 'r');
            assert("schedule_type"@[9] == 't');
            assert("schedule_name"@[9] == 'n');
            assert("schedule_type"@[0] == 's');
            assert("removed_dates"@[0] == 'r');
            assert("schedule_name"@[0] == 's');
            assert("rating_start_date"@[0] == 'r');
            assert("added_dates_notes"@[0] == 'a');
            assert("description"@[0] == 'd');
            assert("added_dates"@[0] == 'a');
        }
        let valid_days = take_or_null(&mut ms, "valid_days");
        let start_date = take_or_null(&mut ms, "start_date");
        let schedule_typicality = take_or_null(&mut ms, "schedule_typicality");
        let schedule_type = take_or_null(&mut ms, "schedule_type");
        let schedule_name = take_or_null(&mut ms, "schedule_name");
        let removed_dates_notes = take_or_null(&mut ms, "removed_dates_notes");
        let removed_dates = take_or_null(&mut ms, "removed_dates");
        let rating_start_date = take_or_null(&mut ms, "rating_start_date");
        let rating_end_date = take_or_null(&mut ms, "rating_end_date");
        let rating_description = take_or_null(&mut ms, "rating_description");
        let end_date = take_or_null(&mut ms, "end_date");
        let description = take_or_null(&mut ms, "description");
        let added_dates_notes = take_or_null(&mut ms, "added_dates_notes");
        let added_dates = take_or_null(&mut ms, "added_dates");
        let valid_days = match <Vec<Day> as FromJson>::from_json(valid_days) {
            Some(x) => x,
            None => return None,
        };
        let start_date = match <Date as FromJson>::from_json(start_date) {
            Some(x) => x,
            None => return None,
        };
        let schedule_typicality = match <ScheduleTypicality as FromJson>::from_json(schedule_typicality) {
            Some(x) => x,
            None => return None,
        };
        let schedule_type = match <Option<String> as FromJson>::from_json(schedule_type) {
            Some(x) => x,
            None => return None,
        };
        let schedule_name = match <Option<String> as FromJson>::from_json(schedule_name) {
            Some(x) => x,
            None => return None,
        };
        let removed_dates_notes = match <Vec<Option<String>> as FromJson>::from_json(removed_dates_notes) {
            Some(x) => x,
            None => return None,
        };
        let removed_dates = match <Vec<Date> as FromJson>::from_json(removed_dates) {
            Some(x) => x,
            None => return None,
        };
        let rating_start_date = match <Option<Date> as FromJson>::from_json(rating_start_date) {
            Some(x) => x,
            None => return None,
        };
        let rating_end_date = match <Option<Date> as FromJson>::from_json(rating_end_date) {
            Some(x) => x,
            None => return None,
        };
        let rating_description = match <Option<String> as FromJson>::from_json(rating_description) {
            Some(x) => x,
            None => return None,
        };
        let end_date = match <Date as FromJson>::from_json(end_date) {
            Some(x) => x,
            None => return None,
        };
        let description = match <Option<String> as FromJson>::from_json(description) {
            Some(x) => x,
            None => return None,
        };
        let added_dates_notes = match <Vec<Option<String>> as FromJson>::from_json(added_dates_notes) {
            Some(x) => x,
            None => return None,
        };
        let added_dates = match <Vec<Date> as FromJson>::from_json(added_dates) {
            Some(x) => x,
            None => return None,
        };
        Some(ServiceAttributes { valid_days, start_date, schedule_typicality, schedule_type, schedule_name, removed_dates_notes, removed_dates, rating_start_date, rating_end_date, rating_description, end_date, description, added_dates_notes, added_dates })
    }
}

} // verus!
