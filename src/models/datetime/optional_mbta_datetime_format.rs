//! Serialization and deserialization of an optional datetime field: `null`
//! stands for no datetime.

use vstd::prelude::*;

use super::{datetime_json, datetime_of_text, lemma_datetime_round_trip, DateTime};
use crate::json::JsonValue;

verus! {

/// Whether `j` is the serialization of `v`.
pub open spec fn encodes(v: Option<DateTime>, j: JsonValue) -> bool {
    match v {
        Some(d) => datetime_json(d, j),
        None => j is Null,
    }
}

/// The value that a field holds: `Some(None)` for `null`, `None` when it is
/// neither `null` nor a string in the datetime format.
pub open spec fn decoded(j: JsonValue) -> Option<Option<DateTime>> {
    match j {
        JsonValue::Null => Some(None),
        JsonValue::Str(s) => match datetime_of_text(s@) {
            Some(d) => Some(Some(d)),
            None => None,
        },
        _ => None,
    }
}

/// Serializes an optional datetime.
pub fn serialize(datetime: &Option<DateTime>) -> (r: JsonValue)
    requires
        datetime matches Some(d) ==> d.wf(),
    ensures
        encodes(*datetime, r),
{
    match datetime {
        Some(d) => super::mbta_datetime_format::serialize(d),
        None => JsonValue::Null,
    }
}

/// Deserializes an optional datetime; `None` when the value is malformed.
pub fn deserialize(j: JsonValue) -> (r: Option<Option<DateTime>>)
    ensures
        r == decoded(j),
{
    match j {
        JsonValue::Null => Some(None),
        JsonValue::Str(s) => match DateTime::parse(s.as_str()) {
            Some(d) => Some(Some(d)),
            None => None,
        },
        _ => None,
    }
}

/// Deserializing the serialization of an optional datetime gives it back.
pub proof fn lemma_round_trip(v: Option<DateTime>, j: JsonValue)
    requires
        v matches Some(d) ==> d.wf(),
        encodes(v, j),
    ensures
        decoded(j) == Some(v),
{
    if let Some(d) = v {
        lemma_datetime_round_trip(d);
    }
}

} // verus!
