use mbta_rs::models::datetime::{
    mbta_date_format, mbta_datetime_format, optional_mbta_date_format,
    optional_mbta_datetime_format, vec_mbta_date_format,
};
use mbta_rs::{Date, DateTime, JsonValue};

fn instant() -> DateTime {
    DateTime {
        date: Date { year: 2022, month: 5, day: 8 },
        hour: 13,
        minute: 18,
        second: 8,
        offset_minutes: -240,
    }
}

fn text(s: &str) -> JsonValue {
    JsonValue::Str(s.to_string())
}

#[test]
fn datetime_encodes_to_canonical_text() {
    assert_eq!(instant().to_text(), "2022-05-08T13:18:08-04:00");
    assert_eq!(mbta_datetime_format::serialize(&instant()), text("2022-05-08T13:18:08-04:00"));
}

#[test]
fn datetime_decodes_canonical_text() {
    assert_eq!(DateTime::parse("2022-05-08T13:18:08-04:00"), Some(instant()));
    assert_eq!(mbta_datetime_format::deserialize(text("2022-05-08T13:18:08-04:00")), Some(instant()));
}

#[test]
fn datetime_with_space_separator_fails() {
    assert_eq!(DateTime::parse("2022-05-08 13:18:08-04:00"), None);
    assert_eq!(mbta_datetime_format::deserialize(text("2022-05-08 13:18:08-04:00")), None);
}

#[test]
fn datetime_rejects_other_shapes() {
    assert_eq!(DateTime::parse("2022-5-08T13:18:08-04:00"), None);
    assert_eq!(DateTime::parse("2022-05-08T13:18:08"), None);
    assert_eq!(DateTime::parse("2022-05-08T13:18:08-0400"), None);
    assert_eq!(DateTime::parse("2022-05-08T13:18:08.5-04:00"), None);
    assert_eq!(DateTime::parse("2022-05-08T24:00:00-04:00"), None);
    assert_eq!(DateTime::parse("2022-02-29T00:00:00+00:00"), None);
    assert_eq!(DateTime::parse("2022-05-08T13:18:08-24:00"), None);
    assert_eq!(DateTime::parse(""), None);
    assert_eq!(mbta_datetime_format::deserialize(JsonValue::Null), None);
}

#[test]
fn datetime_positive_and_zero_offsets() {
    let v = DateTime {
        date: Date { year: 2024, month: 2, day: 29 },
        hour: 0,
        minute: 0,
        second: 59,
        offset_minutes: 330,
    };
    assert_eq!(v.to_text(), "2024-02-29T00:00:59+05:30");
    assert_eq!(DateTime::parse("2024-02-29T00:00:59+05:30"), Some(v));
    let utc = DateTime { offset_minutes: 0, ..v };
    assert_eq!(utc.to_text(), "2024-02-29T00:00:59+00:00");
    assert_eq!(DateTime::parse("2024-02-29T00:00:59-00:00"), Some(utc));
}

#[test]
fn datetime_round_trips() {
    for v in [
        instant(),
        DateTime { date: Date { year: 0, month: 1, day: 1 }, hour: 0, minute: 0, second: 0, offset_minutes: -1439 },
        DateTime { date: Date { year: 9999, month: 12, day: 31 }, hour: 23, minute: 59, second: 59, offset_minutes: 1439 },
    ] {
        assert!(v.is_valid());
        assert_eq!(DateTime::parse(&v.to_text()), Some(v));
    }
}

#[test]
fn date_encodes_and_decodes() {
    let d = Date { year: 2022, month: 5, day: 8 };
    assert_eq!(d.to_text(), "2022-05-08");
    assert_eq!(mbta_date_format::serialize(&d), text("2022-05-08"));
    assert_eq!(Date::parse("2022-05-08"), Some(d));
    assert_eq!(mbta_date_format::deserialize(text("2022-05-08")), Some(d));
    assert_eq!(instant().date, d);
}

#[test]
fn date_with_spaces_fails() {
    assert_eq!(Date::parse("2022 05 08"), None);
    assert_eq!(mbta_date_format::deserialize(text("2022 05 08")), None);
    assert_eq!(Date::parse("2022-05-08T00:00:00-04:00"), None);
    assert_eq!(Date::parse("2023-02-29"), None);
    assert_eq!(Date::parse("2000-02-29"), Some(Date { year: 2000, month: 2, day: 29 }));
    assert_eq!(Date::parse("1900-02-29"), None);
}

#[test]
fn optional_datetime_codec() {
    assert_eq!(optional_mbta_datetime_format::serialize(&Some(instant())), text("2022-05-08T13:18:08-04:00"));
    assert_eq!(optional_mbta_datetime_format::serialize(&None), JsonValue::Null);
    assert_eq!(optional_mbta_datetime_format::deserialize(text("2022-05-08T13:18:08-04:00")), Some(Some(instant())));
    assert_eq!(optional_mbta_datetime_format::deserialize(JsonValue::Null), Some(None));
    assert_eq!(optional_mbta_datetime_format::deserialize(text("2022-05-08 13:18:08-04:00")), None);
}

#[test]
fn optional_date_codec() {
    let d = Date { year: 2022, month: 5, day: 8 };
    assert_eq!(optional_mbta_date_format::serialize(&Some(d)), text("2022-05-08"));
    assert_eq!(optional_mbta_date_format::serialize(&None), JsonValue::Null);
    assert_eq!(optional_mbta_date_format::deserialize(text("2022-05-08")), Some(Some(d)));
    assert_eq!(optional_mbta_date_format::deserialize(JsonValue::Null), Some(None));
    assert_eq!(optional_mbta_date_format::deserialize(text("2022 05 08")), None);
}

#[test]
fn date_list_codec() {
    let d = Date { year: 2022, month: 5, day: 8 };
    assert_eq!(vec_mbta_date_format::serialize(&vec![d]), JsonValue::Array(vec![text("2022-05-08")]));
    assert_eq!(vec_mbta_date_format::serialize(&vec![]), JsonValue::Array(vec![]));
    assert_eq!(vec_mbta_date_format::deserialize(JsonValue::Array(vec![text("2022-05-08")])), Some(vec![d]));
    assert_eq!(vec_mbta_date_format::deserialize(JsonValue::Array(vec![])), Some(vec![]));
    assert_eq!(vec_mbta_date_format::deserialize(JsonValue::Array(vec![text("2022 05 08")])), None);
    assert_eq!(vec_mbta_date_format::deserialize(JsonValue::Null), None);
}
