use mbta_rs::models::route_pattern::RoutePatternTypicality;
use mbta_rs::models::schedule::{ScheduleTimepoint, VehiclePresence};
use mbta_rs::models::service::{Day, ScheduleTypicality};
use mbta_rs::models::stop::LocationType;
use mbta_rs::models::trip::BikesAllowed;
use mbta_rs::models::alert::{Cause, Effect, Lifecycle};
use mbta_rs::{CodeKind, InvalidCode, RouteType, WheelchairAccessible};

fn message<T: std::fmt::Debug>(r: Result<T, InvalidCode>) -> String {
    r.expect_err("invalid code").message()
}

#[test]
fn test_route_type_try_from_u8() {
    assert_eq!(RouteType::try_from(0), Ok(RouteType::LightRail));
    assert_eq!(RouteType::try_from(1), Ok(RouteType::HeavyRail));
    assert_eq!(RouteType::try_from(2), Ok(RouteType::CommuterRail));
    assert_eq!(RouteType::try_from(3), Ok(RouteType::Bus));
    assert_eq!(RouteType::try_from(4), Ok(RouteType::Ferry));
    assert_eq!(RouteType::try_from(5), Err(InvalidCode { kind: CodeKind::RouteType, value: 5 }));
    assert_eq!(message(RouteType::try_from(5)), "invalid route type value: 5");
}

#[test]
fn test_u8_from_route_type() {
    assert_eq!(u8::from(RouteType::LightRail), 0);
    assert_eq!(u8::from(RouteType::HeavyRail), 1);
    assert_eq!(u8::from(RouteType::CommuterRail), 2);
    assert_eq!(u8::from(RouteType::Bus), 3);
    assert_eq!(u8::from(RouteType::Ferry), 4);
}

#[test]
fn test_wheelchair_accessible_try_from_u8() {
    assert_eq!(WheelchairAccessible::try_from(0), Ok(WheelchairAccessible::NoInfo));
    assert_eq!(WheelchairAccessible::try_from(1), Ok(WheelchairAccessible::Accessible));
    assert_eq!(WheelchairAccessible::try_from(2), Ok(WheelchairAccessible::Inaccessible));
    assert_eq!(message(WheelchairAccessible::try_from(3)), "invalid wheelchair accessibility value: 3");
    assert_eq!(u8::from(WheelchairAccessible::Inaccessible), 2);
}

#[test]
fn test_route_pattern_typicality_try_from_u8() {
    assert_eq!(RoutePatternTypicality::try_from(0), Ok(RoutePatternTypicality::Undefined));
    assert_eq!(RoutePatternTypicality::try_from(4), Ok(RoutePatternTypicality::NormalServiceDiversion));
    assert_eq!(message(RoutePatternTypicality::try_from(5)), "invalid route pattern typicality: 5");
    assert_eq!(u8::from(RoutePatternTypicality::HighlyAtypical), 3);
}

#[test]
fn test_schedule_timepoint_from_bool() {
    assert_eq!(ScheduleTimepoint::from(true), ScheduleTimepoint::Exact);
    assert_eq!(ScheduleTimepoint::from(false), ScheduleTimepoint::Estimates);
    assert!(bool::from(ScheduleTimepoint::Exact));
    assert!(!bool::from(ScheduleTimepoint::Estimates));
}

#[test]
fn test_vehicle_presence_try_from_u8() {
    assert_eq!(VehiclePresence::try_from(0), Ok(VehiclePresence::RegularlyScheduled));
    assert_eq!(VehiclePresence::try_from(3), Ok(VehiclePresence::MustCoordinateWithDriver));
    assert_eq!(message(VehiclePresence::try_from(4)), "invalid vehicle presence value: 4");
    assert_eq!(u8::from(VehiclePresence::MustPhoneAgency), 2);
}

#[test]
fn test_schedule_typicality_try_from_u8() {
    assert_eq!(ScheduleTypicality::try_from(5), Ok(ScheduleTypicality::Atypical));
    assert_eq!(message(ScheduleTypicality::try_from(6)), "invalid schedule typicality value: 6");
    assert_eq!(u8::from(ScheduleTypicality::Extra), 2);
}

#[test]
fn test_day_try_from_u8() {
    assert_eq!(Day::try_from(1), Ok(Day::Monday));
    assert_eq!(Day::try_from(7), Ok(Day::Sunday));
    assert_eq!(message(Day::try_from(0)), "invalid day value: 0");
    assert_eq!(message(Day::try_from(8)), "invalid day value: 8");
    assert_eq!(u8::from(Day::Wednesday), 3);
}

#[test]
fn test_location_type_and_bikes_allowed() {
    assert_eq!(LocationType::try_from(2), Ok(LocationType::EntranceExit));
    assert_eq!(message(LocationType::try_from(4)), "invalid location type value: 4");
    assert_eq!(u8::from(LocationType::GenericNode), 3);
    assert_eq!(BikesAllowed::try_from(1), Ok(BikesAllowed::Allowed));
    assert_eq!(message(BikesAllowed::try_from(255)), "invalid bikes allowed value: 255");
    assert_eq!(u8::from(BikesAllowed::NotAllowed), 2);
}

#[test]
fn wire_names_of_alert_enums() {
    assert_eq!(Lifecycle::from_name("ONGOING_UPCOMING"), Some(Lifecycle::OngoingUpcoming));
    assert_eq!(Lifecycle::OngoingUpcoming.name(), "ONGOING_UPCOMING");
    assert_eq!(Effect::from_name("STOP_MOVED"), Some(Effect::StopMoved));
    assert_eq!(Cause::from_name("AN_EARLIER_MECHANICAL_PROBLEM"), Some(Cause::AnEarlierMechanicalProblem));
    assert_eq!(Cause::from_name("accident"), None);
}
