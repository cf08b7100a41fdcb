use mbta_rs::models::alert::{Activity, AlertAttributes, Cause, Effect, Lifecycle};
use mbta_rs::models::route::RouteAttributes;
use mbta_rs::models::schedule::{ScheduleAttributes, ScheduleTimepoint, VehiclePresence};
use mbta_rs::models::service::{Day, ServiceAttributes};
use mbta_rs::models::shape::ShapeAttributes;
use mbta_rs::{
    decode_outcome, Date, DateTime, FromJson, HttpOutcome, JsonNumber, JsonValue, Resource, Response,
    RouteType,
};

fn text(s: &str) -> JsonValue {
    JsonValue::Str(s.to_string())
}

fn num(n: u64) -> JsonValue {
    JsonValue::Number(JsonNumber::Unsigned(n))
}

fn object(members: Vec<(&str, JsonValue)>) -> JsonValue {
    JsonValue::Object(members.into_iter().map(|(k, v)| (k.to_string(), v)).collect())
}

fn red_line(route_type: u64) -> JsonValue {
    object(vec![
        ("type", num(route_type)),
        ("short_name", text("")),
        ("long_name", text("Red Line")),
        ("color", text("DA291C")),
        ("text_color", text("FFFFFF")),
        ("sort_order", num(10010)),
        ("fare_class", text("Rapid Transit")),
        ("direction_names", JsonValue::Array(vec![text("South"), text("North")])),
        ("description", text("Rapid Transit")),
    ])
}

#[test]
fn route_attributes_decode() {
    let route = RouteAttributes::from_json(red_line(1)).expect("route attributes");
    assert_eq!(route.route_type, RouteType::HeavyRail);
    assert_eq!(route.long_name, "Red Line");
    assert_eq!(route.sort_order, 10010);
    assert_eq!(route.direction_names, Some(vec!["South".to_string(), "North".to_string()]));
    assert_eq!(route.direction_destinations, None);
}

#[test]
fn route_attributes_with_bad_code_fail() {
    assert_eq!(RouteAttributes::from_json(red_line(9)), None);
}

#[test]
fn typed_route_list_decodes() {
    let body = object(vec![
        (
            "data",
            JsonValue::Array(vec![object(vec![
                ("type", text("route")),
                ("id", text("Red")),
                ("attributes", red_line(1)),
            ])]),
        ),
        ("jsonapi", object(vec![("version", text("1.0"))])),
    ]);
    let response: Response<Vec<Resource<RouteAttributes>>> =
        decode_outcome(HttpOutcome::Received { status: 200, body }).expect("typed success");
    assert_eq!(response.data[0].id, "Red");
    assert_eq!(response.data[0].attributes.color, "DA291C");
}

#[test]
fn shape_attributes_decode() {
    let shape = ShapeAttributes::from_json(object(vec![("polyline", text("_p~iF~ps|U"))]));
    assert_eq!(shape, Some(ShapeAttributes { polyline: "_p~iF~ps|U".to_string() }));
}

#[test]
fn alert_attributes_decode_datetimes() {
    let alert = object(vec![
        ("url", JsonValue::Null),
        ("created_at", text("2022-05-08T13:18:08-04:00")),
        ("updated_at", text("2022-05-09T01:02:03-04:00")),
        ("header", text("Shuttle buses")),
        ("short_header", text("Shuttles")),
        ("severity", num(7)),
        ("service_effect", text("Red Line shuttle")),
        ("lifecycle", text("ONGOING")),
        ("effect", text("SHUTTLE")),
        ("cause", text("MAINTENANCE")),
        (
            "active_period",
            JsonValue::Array(vec![object(vec![
                ("start", text("2022-05-08T13:18:08-04:00")),
                ("end", JsonValue::Null),
            ])]),
        ),
        (
            "informed_entity",
            JsonValue::Array(vec![object(vec![
                ("route", text("Red")),
                ("route_type", num(1)),
                ("activities", JsonValue::Array(vec![text("BOARD"), text("EXIT")])),
            ])]),
        ),
    ]);
    let a = AlertAttributes::from_json(alert).expect("alert attributes");
    assert_eq!(a.created_at.to_text(), "2022-05-08T13:18:08-04:00");
    assert_eq!(a.updated_at.date, Date { year: 2022, month: 5, day: 9 });
    assert_eq!(a.lifecycle, Lifecycle::Ongoing);
    assert_eq!(a.effect, Effect::Shuttle);
    assert_eq!(a.cause, Cause::Maintenance);
    assert_eq!(a.active_period.len(), 1);
    assert_eq!(a.active_period[0].end, None);
    assert_eq!(a.informed_entity[0].route_type, Some(RouteType::HeavyRail));
    assert_eq!(a.informed_entity[0].activities, vec![Activity::Board, Activity::Exit]);
    assert_eq!(a.informed_entity[0].trip, None);
}

#[test]
fn schedule_attributes_decode() {
    let schedule = object(vec![
        ("timepoint", JsonValue::Bool(false)),
        ("stop_sequence", num(3)),
        ("pickup_type", num(0)),
        ("drop_off_type", num(1)),
        ("direction_id", num(1)),
        ("departure_time", text("2022-05-08T13:18:08-04:00")),
        ("arrival_time", JsonValue::Null),
    ]);
    let s = ScheduleAttributes::from_json(schedule).expect("schedule attributes");
    assert_eq!(s.timepoint, ScheduleTimepoint::Estimates);
    assert_eq!(s.drop_off_type, VehiclePresence::NotAvailable);
    assert_eq!(
        s.departure_time,
        Some(DateTime {
            date: Date { year: 2022, month: 5, day: 8 },
            hour: 13,
            minute: 18,
            second: 8,
            offset_minutes: -240
        })
    );
    assert_eq!(s.arrival_time, None);
    assert_eq!(s.stop_headsign, None);
}

#[test]
fn service_attributes_decode_dates() {
    let service = object(vec![
        ("valid_days", JsonValue::Array(vec![num(1), num(2), num(3), num(4), num(5)])),
        ("start_date", text("2022-05-08")),
        ("schedule_typicality", num(1)),
        ("removed_dates_notes", JsonValue::Array(vec![JsonValue::Null])),
        ("removed_dates", JsonValue::Array(vec![text("2022-05-30")])),
        ("end_date", text("2022-06-24")),
        ("added_dates_notes", JsonValue::Array(vec![])),
        ("added_dates", JsonValue::Array(vec![])),
    ]);
    let s = ServiceAttributes::from_json(service).expect("service attributes");
    assert_eq!(s.valid_days, vec![Day::Monday, Day::Tuesday, Day::Wednesday, Day::Thursday, Day::Friday]);
    assert_eq!(s.start_date, Date { year: 2022, month: 5, day: 8 });
    assert_eq!(s.removed_dates, vec![Date { year: 2022, month: 5, day: 30 }]);
    assert_eq!(s.removed_dates_notes, vec![None]);
    assert_eq!(s.rating_start_date, None);
    assert!(s.added_dates.is_empty());
}

#[test]
fn service_with_bad_date_fails() {
    let service = object(vec![
        ("valid_days", JsonValue::Array(vec![])),
        ("start_date", text("2022 05 08")),
        ("schedule_typicality", num(1)),
        ("removed_dates_notes", JsonValue::Array(vec![])),
        ("removed_dates", JsonValue::Array(vec![])),
        ("end_date", text("2022-06-24")),
        ("added_dates_notes", JsonValue::Array(vec![])),
        ("added_dates", JsonValue::Array(vec![])),
    ]);
    assert_eq!(ServiceAttributes::from_json(service), None);
}
