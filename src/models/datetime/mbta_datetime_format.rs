//! Serialization and deserialization of a datetime field.

use vstd::prelude::*;

use super::{datetime_json, datetime_of_text, lemma_datetime_round_trip, DateTime};
use crate::json::JsonValue;

verus! {

/// The datetime that a field holds, if it is a string in the datetime format.
pub open spec fn decoded(j: JsonValue) -> Option<DateTime> {
    match j {
        JsonValue::Str(s) => datetime_of_text(s@),
        _ => None,
    }
}

/// Serializes a datetime as its text.
pub fn serialize(datetime: &DateTime) -> (r: JsonValue)
    requires
        datetime.wf(),
    ensures
        datetime_json(*datetime, r),
{
    JsonValue::Str(datetime.to_text())
}

/// Deserializes a datetime; any other value or text gives `None`.
pub fn deserialize(j: JsonValue) -> (r: Option<DateTime>)
    ensures
        r == decoded(j),
{
    match j {
        JsonValue::Str(s) => DateTime::parse(s.as_str()),
        _ => None,
    }
}

/// Deserializing the serialization of a datetime gives it back.
pub proof fn lemma_round_trip(v: DateTime, j: JsonValue)
    requires
        v.wf(),
        datetime_json(v, j),
    ensures
        decoded(j) == Some(v),
{
    lemma_datetime_round_trip(v);
}

} // verus!
