//! Serialization and deserialization of a date field.

use vstd::prelude::*;

use super::{date_json, date_of_text, lemma_date_round_trip, Date};
use crate::json::JsonValue;

verus! {

/// The date that a field holds, if it is a string in the date format.
pub open spec fn decoded(j: JsonValue) -> Option<Date> {
    match j {
        JsonValue::Str(s) => date_of_text(s@),
        _ => None,
    }
}

/// Serializes a date as its text.
pub fn serialize(date: &Date) -> (r: JsonValue)
    requires
        date.wf(),
    ensures
        date_json(*date, r),
{
    JsonValue::Str(date.to_text())
}

/// Deserializes a date; any other value or text gives `None`.
pub fn deserialize(j: JsonValue) -> (r: Option<Date>)
    ensures
        r == decoded(j),
{
    match j {
        JsonValue::Str(s) => Date::parse(s.as_str()),
        _ => None,
    }
}

/// Deserializing the serialization of a date gives it back.
pub proof fn lemma_round_trip(d: Date, j: JsonValue)
    requires
        d.wf(),
        date_json(d, j),
    ensures
        decoded(j) == Some(d),
{
    lemma_date_round_trip(d);
}

} // verus!
