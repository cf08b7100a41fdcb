//! Serialization and deserialization of a field holding a list of dates.

use vstd::prelude::*;

use super::{date_json, date_of_text, lemma_date_round_trip, Date};
use crate::json::JsonValue;

verus! {

/// Whether `items` are the serializations of `dates`, one for one.
pub open spec fn encodes_all(dates: Seq<Date>, items: Seq<JsonValue>) -> bool {
    dates.len() == items.len() && forall|i: int| 0 <= i < dates.len() ==> date_json(#[trigger] dates[i], items[i])
}

/// Whether `j` is the serialization of `dates`.
pub open spec fn encodes(dates: Seq<Date>, j: JsonValue) -> bool {
    match j {
        JsonValue::Array(items) => encodes_all(dates, items@),
        _ => false,
    }
}

/// The date that one item holds, if it is a string in the date format.
pub open spec fn item_date(j: JsonValue) -> Option<Date> {
    match j {
        JsonValue::Str(s) => date_of_text(s@),
        _ => None,
    }
}

/// Whether every item holds a date.
pub open spec fn all_dates(items: Seq<JsonValue>) -> bool {
    forall|i: int| 0 <= i < items.len() ==> (#[trigger] item_date(items[i])) is Some
}

/// The dates that a field holds, when it is an array of date strings.
pub open spec fn decoded(j: JsonValue) -> Option<Seq<Date>> {
    match j {
        JsonValue::Array(items) => if all_dates(items@) {
            Some(Seq::new(items@.len(), |i: int| item_date(items@[i])->0))
        } else {
            None
        },
        _ => None,
    }
}

/// Serializes a list of dates as an array of their texts.
pub fn serialize(dates: &Vec<Date>) -> (r: JsonValue)
    requires
        forall|i: int| 0 <= i < dates@.len() ==> (#[trigger] dates@[i]).wf(),
    ensures
        encodes(dates@, r),
{
    let mut items: Vec<JsonValue> = Vec::new();
    let mut i: usize = 0;
    while i < dates.len()
        invariant
            i <= dates@.len(),
            forall|k: int| 0 <= k < dates@.len() ==> (#[trigger] dates@[k]).wf(),
            encodes_all(dates@.subrange(0, i as int), items@),
        decreases dates.len() - i,
    {
        let item = super::mbta_date_format::serialize(&dates[i]);
        items.push(item);
        i = i + 1;
        assert(dates@.subrange(0, i as int) =~= dates@.subrange(0, i - 1).push(dates@[i - 1]));
    }
    assert(dates@.subrange(0, i as int) =~= dates@);
    JsonValue::Array(items)
}

/// Deserializes a list of dates; `None` when the value is not an array or
/// an item is not a date.
pub fn deserialize(j: JsonValue) -> (r: Option<Vec<Date>>)
    ensures
        match r {
            Some(v) => decoded(j) == Some(v@),
            None => decoded(j) is None,
        },
{
    let ghost whole = j;
    match j {
        JsonValue::Array(items) => {
            let mut out: Vec<Date> = Vec::new();
            let mut i: usize = 0;
            assert(decoded(whole) is None <==> !all_dates(items@));
            while i < items.len()
                invariant
                    whole == j,
                    decoded(whole) is None <==> !all_dates(items@),
                    i <= items@.len(),
                    out@.len() == i,
                    forall|k: int| 0 <= k < i ==> item_date(items@[k]) == Some(#[trigger] out@[k]),
                decreases items.len() - i,
            {
                let d = match &items[i] {
                    JsonValue::Str(s) => Date::parse(s.as_str()),
                    _ => None,
                };
                match d {
                    Some(d) => out.push(d),
                    None => {
                        assert(item_date(items@[i as int]) is None);
                        return None;
                    },
                }
                i = i + 1;
            }
            assert(all_dates(items@)) by {
                assert forall|k: int| 0 <= k < items@.len() implies (#[trigger] item_date(
                    items@[k],
                )) is Some by {
                    assert(item_date(items@[k]) == Some(out@[k]));
                }
            }
            assert(out@ =~= Seq::new(items@.len(), |k: int| item_date(items@[k])->0));
            Some(out)
        },
        _ => None,
    }
}

/// Deserializing the serialization of a list of dates gives it back.
pub proof fn lemma_round_trip(dates: Seq<Date>, j: JsonValue)
    requires
        forall|i: int| 0 <= i < dates.len() ==> (#[trigger] dates[i]).wf(),
        encodes(dates, j),
    ensures
        decoded(j) == Some(dates),
{
    if let JsonValue::Array(items) = j {
        assert forall|i: int| 0 <= i < items@.len() implies (#[trigger] item_date(items@[i])) == Some(
            dates[i],
        ) by {
            lemma_date_round_trip(dates[i]);
            assert(date_json(dates[i], items@[i]));
        }
        assert(Seq::new(items@.len(), |i: int| item_date(items@[i])->0) =~= dates);
    }
}

} // verus!
