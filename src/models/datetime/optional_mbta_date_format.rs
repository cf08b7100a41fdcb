//! Serialization and deserialization of an optional date field: `null`
//! stands for no date.

use vstd::prelude::*;

use super::{date_json, date_of_text, lemma_date_round_trip, Date};
use crate::json::JsonValue;

verus! {

/// Whether `j` is the serialization of `v`.
pub open spec fn encodes(v: Option<Date>, j: JsonValue) -> bool {
    match v {
        Some(d) => date_json(d, j),
        None => j is Null,
    }
}

/// The value that a field holds: `Some(None)` for `null`, `None` when it is
/// neither `null` nor a string in the date format.
pub open spec fn decoded(j: JsonValue) -> Option<Option<Date>> {
    match j {
        JsonValue::Null => Some(None),
        JsonValue::Str(s) => match date_of_text(s@) {
            Some(d) => Some(Some(d)),
            None => None,
        },
        _ => None,
    }
}

/// Serializes an optional date.
pub fn serialize(date: &Option<Date>) -> (r: JsonValue)
    requires
        date matches Some(d) ==> d.wf(),
    ensures
        encodes(*date, r),
{
    match date {
        Some(d) => super::mbta_date_format::serialize(d),
        None => JsonValue::Null,
    }
}

/// Deserializes an optional date; `None` when the value is malformed.
pub fn deserialize(j: JsonValue) -> (r: Option<Option<Date>>)
    ensures
        r == decoded(j),
{
    match j {
        JsonValue::Null => Some(None),
        JsonValue::Str(s) => match Date::parse(s.as_str()) {
            Some(d) => Some(Some(d)),
            None => None,
        },
        _ => None,
    }
}

/// Deserializing the serialization of an optional date gives it back.
pub proof fn lemma_round_trip(v: Option<Date>, j: JsonValue)
    requires
        v matches Some(d) ==> d.wf(),
        encodes(v, j),
    ensures
        decoded(j) == Some(v),
{
    if let Some(d) = v {
        lemma_date_round_trip(d);
    }
}

} // verus!
