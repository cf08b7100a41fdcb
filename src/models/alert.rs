//! Data models for alerts.

use vstd::prelude::*;

use crate::json::{into_members, member, or_null, str_eq, take_or_null, FromJson, JsonValue};
use crate::models::datetime::DateTime;
use crate::models::shared::RouteType;

verus! {

/// Attributes of an alert.
#[derive(Debug, PartialEq, Clone)]
pub struct AlertAttributes {
    /// Link to more information.
    pub url: Option<String>,
    /// When the alert was created.
    pub created_at: DateTime,
    /// When the alert was last updated.
    pub updated_at: DateTime,
    /// Description of when the alert applies.
    pub timeframe: Option<String>,
    /// Header text.
    pub header: String,
    /// Short header text.
    pub short_header: String,
    /// Severity, `0..=10`.
    pub severity: u8,
    /// Summary of the effect on service.
    pub service_effect: String,
    /// Lifecycle of the alert.
    pub lifecycle: Lifecycle,
    /// Effect of the alert.
    pub effect: Effect,
    /// Longer description.
    pub description: Option<String>,
    /// Cause of the alert.
    pub cause: Cause,
    /// Banner text.
    pub banner: Option<String>,
    /// Periods during which the alert is active.
    pub active_period: Vec<ActivePeriod>,
    /// Entities the alert concerns.
    pub informed_entity: Vec<InformedEntity>,
}

/// A period during which an alert is active.
#[derive(Debug, PartialEq, Clone, Copy)]
pub struct ActivePeriod {
    /// Start of the period.
    pub start: DateTime,
    /// End of the period, if known.
    pub end: Option<DateTime>,
}

/// An entity that an alert concerns.
#[derive(Debug, PartialEq, Clone)]
pub struct InformedEntity {
    /// Trip concerned.
    pub trip: Option<String>,
    /// Stop concerned.
    pub stop: Option<String>,
    /// Route type concerned.
    pub route_type: Option<RouteType>,
    /// Route concerned.
    pub route: Option<String>,
    /// Facility concerned.
    pub facility: Option<String>,
    /// Direction concerned.
    pub direction_id: Option<u8>,
    /// Activities concerned.
    pub activities: Vec<Activity>,
}

/// Lifecycle of an alert.
#[derive(Debug, PartialEq, Eq, Clone, Copy, Structural)]
pub enum Lifecycle {
    /// New.
    New,
    /// Ongoing.
    Ongoing,
    /// Ongoing and upcoming.
    OngoingUpcoming,
    /// Upcoming.
    Upcoming,
}

impl Lifecycle {
    /// The name of a value in the API.
    pub open spec fn spec_name(self) -> Seq<char> {
        match self {
            Lifecycle::New => "NEW"@,
            Lifecycle::Ongoing => "ONGOING"@,
            Lifecycle::OngoingUpcoming => "ONGOING_UPCOMING"@,
            Lifecycle::Upcoming => "UPCOMING"@,
        }
    }

    /// The value of a name, if it is one.
    pub open spec fn from_spec_name(s: Seq<char>) -> Option<Lifecycle> {
        if s == "NEW"@ {
            Some(Lifecycle::New)
        } else if s == "ONGOING"@ {
            Some(Lifecycle::Ongoing)
        } else if s == "ONGOING_UPCOMING"@ {
            Some(Lifecycle::OngoingUpcoming)
        } else if s == "UPCOMING"@ {
            Some(Lifecycle::Upcoming)
        } else {
            None
        }
    }

    /// The name of the value in the API.
    pub fn name(&self) -> (r: &'static str)
        ensures
            r@ == self.spec_name(),
    {
        match self {
            Lifecycle::New => "NEW",
            Lifecycle::Ongoing => "ONGOING",
            Lifecycle::OngoingUpcoming => "ONGOING_UPCOMING",
            Lifecycle::Upcoming => "UPCOMING",
        }
    }

    /// The value of a name, if it is one.
    pub fn from_name(s: &str) -> (r: Option<Lifecycle>)
        ensures
            r == Lifecycle::from_spec_name(s@),
    {
        if str_eq(s, "NEW") {
            Some(Lifecycle::New)
        } else if str_eq(s, "ONGOING") {
            Some(Lifecycle::Ongoing)
        } else if str_eq(s, "ONGOING_UPCOMING") {
            Some(Lifecycle::OngoingUpcoming)
        } else if str_eq(s, "UPCOMING") {
            Some(Lifecycle::Upcoming)
        } else {
            None
        }
    }
}

/// A JSON string holding one of the names.
impl FromJson for Lifecycle {
    open spec fn decodes_to(j: JsonValue, v: Self) -> bool {
        j matches JsonValue::Str(s) && Lifecycle::from_spec_name(s@) == Some(v)
    }

    open spec fn decodable(j: JsonValue) -> bool {
        j matches JsonValue::Str(s) && Lifecycle::from_spec_name(s@) is Some
    }

    fn from_json(j: JsonValue) -> (r: Option<Self>) {
        match j {
            JsonValue::Str(s) => Lifecycle::from_name(s.as_str()),
            _ => None,
        }
    }
}

/// Effect of an alert.
#[derive(Debug, PartialEq, Eq, Clone, Copy, Structural)]
pub enum Effect {
    /// Access issue.
    AccessIssue,
    /// Additional service.
    AdditionalService,
    /// Amber alert.
    AmberAlert,
    /// Bike issue.
    BikeIssue,
    /// Cancellation.
    Cancellation,
    /// Delay.
    Delay,
    /// Detour.
    Detour,
    /// Dock closure.
    DockClosure,
    /// Dock issue.
    DockIssue,
    /// Elevator closure.
    ElevatorClosure,
    /// Escalator closure.
    EscalatorClosure,
    /// Extra service.
    ExtraService,
    /// Facility issue.
    FacilityIssue,
    /// Modified service.
    ModifiedService,
    /// No service.
    NoService,
    /// Other effect.
    OtherEffect,
    /// Parking closure.
    ParkingClosure,
    /// Parking issue.
    ParkingIssue,
    /// Policy change.
    PolicyChange,
    /// Schedule change.
    ScheduleChange,
    /// Service change.
    ServiceChange,
    /// Shuttle.
    Shuttle,
    /// Snow route.
    SnowRoute,
    /// Station closure.
    StationClosure,
    /// Station issue.
    StationIssue,
    /// Stop closure.
    StopClosure,
    /// Stop move.
    StopMove,
    /// Stop moved.
    StopMoved,
    /// Summary.
    Summary,
    /// Suspension.
    Suspension,
    /// Track change.
    TrackChange,
    /// Unknown effect.
    UnknownEffect,
}

impl Effect {
    /// The name of a value in the API.
    pub open spec fn spec_name(self) -> Seq<char> {
        match self {
            Effect::AccessIssue => "ACCESS_ISSUE"@,
            Effect::AdditionalService => "ADDITIONAL_SERVICE"@,
            Effect::AmberAlert => "AMBER_ALERT"@,
            Effect::BikeIssue => "BIKE_ISSUE"@,
            Effect::Cancellation => "CANCELLATION"@,
            Effect::Delay => "DELAY"@,
            Effect::Detour => "DETOUR"@,
            Effect::DockClosure => "DOCK_CLOSURE"@,
            Effect::DockIssue => "DOCK_ISSUE"@,
            Effect::ElevatorClosure => "ELEVATOR_CLOSURE"@,
            Effect::EscalatorClosure => "ESCALATOR_CLOSURE"@,
            Effect::ExtraService => "EXTRA_SERVICE"@,
            Effect::FacilityIssue => "FACILITY_ISSUE"@,
            Effect::ModifiedService => "MODIFIED_SERVICE"@,
            Effect::NoService => "NO_SERVICE"@,
            Effect::OtherEffect => "OTHER_EFFECT"@,
            Effect::ParkingClosure => "PARKING_CLOSURE"@,
            Effect::ParkingIssue => "PARKING_ISSUE"@,
            Effect::PolicyChange => "POLICY_CHANGE"@,
            Effect::ScheduleChange => "SCHEDULE_CHANGE"@,
            Effect::ServiceChange => "SERVICE_CHANGE"@,
            Effect::Shuttle => "SHUTTLE"@,
            Effect::SnowRoute => "SNOW_ROUTE"@,
            Effect::StationClosure => "STATION_CLOSURE"@,
            Effect::StationIssue => "STATION_ISSUE"@,
            Effect::StopClosure => "STOP_CLOSURE"@,
            Effect::StopMove => "STOP_MOVE"@,
            Effect::StopMoved => "STOP_MOVED"@,
            Effect::Summary => "SUMMARY"@,
            Effect::Suspension => "SUSPENSION"@,
            Effect::TrackChange => "TRACK_CHANGE"@,
            Effect::UnknownEffect => "UNKNOWN_EFFECT"@,
        }
    }

    /// The value of a name, if it is one.
    pub open spec fn from_spec_name(s: Seq<char>) -> Option<Effect> {
        if s == "ACCESS_ISSUE"@ {
            Some(Effect::AccessIssue)
        } else if s == "ADDITIONAL_SERVICE"@ {
            Some(Effect::AdditionalService)
        } else if s == "AMBER_ALERT"@ {
            Some(Effect::AmberAlert)
        } else if s == "BIKE_ISSUE"@ {
            Some(Effect::BikeIssue)
        } else if s == "CANCELLATION"@ {
            Some(Effect::Cancellation)
        } else if s == "DELAY"@ {
            Some(Effect::Delay)
        } else if s == "DETOUR"@ {
            Some(Effect::Detour)
        } else if s == "DOCK_CLOSURE"@ {
            Some(Effect::DockClosure)
        } else if s == "DOCK_ISSUE"@ {
            Some(Effect::DockIssue)
        } else if s == "ELEVATOR_CLOSURE"@ {
            Some(Effect::ElevatorClosure)
        } else if s == "ESCALATOR_CLOSURE"@ {
            Some(Effect::EscalatorClosure)
        } else if s == "EXTRA_SERVICE"@ {
            Some(Effect::ExtraService)
        } else if s == "FACILITY_ISSUE"@ {
            Some(Effect::FacilityIssue)
        } else if s == "MODIFIED_SERVICE"@ {
            Some(Effect::ModifiedService)
        } else if s == "NO_SERVICE"@ {
            Some(Effect::NoService)
        } else if s == "OTHER_EFFECT"@ {
            Some(Effect::OtherEffect)
        } else if s == "PARKING_CLOSURE"@ {
            Some(Effect::ParkingClosure)
        } else if s == "PARKING_ISSUE"@ {
            Some(Effect::ParkingIssue)
        } else if s == "POLICY_CHANGE"@ {
            Some(Effect::PolicyChange)
        } else if s == "SCHEDULE_CHANGE"@ {
            Some(Effect::ScheduleChange)
        } else if s == "SERVICE_CHANGE"@ {
            Some(Effect::ServiceChange)
        } else if s == "SHUTTLE"@ {
            Some(Effect::Shuttle)
        } else if s == "SNOW_ROUTE"@ {
            Some(Effect::SnowRoute)
        } else if s == "STATION_CLOSURE"@ {
            Some(Effect::StationClosure)
        } else if s == "STATION_ISSUE"@ {
            Some(Effect::StationIssue)
        } else if s == "STOP_CLOSURE"@ {
            Some(Effect::StopClosure)
        } else if s == "STOP_MOVE"@ {
            Some(Effect::StopMove)
        } else if s == "STOP_MOVED"@ {
            Some(Effect::StopMoved)
        } else if s == "SUMMARY"@ {
            Some(Effect::Summary)
        } else if s == "SUSPENSION"@ {
            Some(Effect::Suspension)
        } else if s == "TRACK_CHANGE"@ {
            Some(Effect::TrackChange)
        } else if s == "UNKNOWN_EFFECT"@ {
            Some(Effect::UnknownEffect)
        } else {
            None
        }
    }

    /// The name of the value in the API.
    pub fn name(&self) -> (r: &'static str)
        ensures
            r@ == self.spec_name(),
    {
        match self {
            Effect::AccessIssue => "ACCESS_ISSUE",
            Effect::AdditionalService => "ADDITIONAL_SERVICE",
            Effect::AmberAlert => "AMBER_ALERT",
            Effect::BikeIssue => "BIKE_ISSUE",
            Effect::Cancellation => "CANCELLATION",
            Effect::Delay => "DELAY",
            Effect::Detour => "DETOUR",
            Effect::DockClosure => "DOCK_CLOSURE",
            Effect::DockIssue => "DOCK_ISSUE",
            Effect::ElevatorClosure => "ELEVATOR_CLOSURE",
            Effect::EscalatorClosure => "ESCALATOR_CLOSURE",
            Effect::ExtraService => "EXTRA_SERVICE",
            Effect::FacilityIssue => "FACILITY_ISSUE",
            Effect::ModifiedService => "MODIFIED_SERVICE",
            Effect::NoService => "NO_SERVICE",
            Effect::OtherEffect => "OTHER_EFFECT",
            Effect::ParkingClosure => "PARKING_CLOSURE",
            Effect::ParkingIssue => "PARKING_ISSUE",
            Effect::PolicyChange => "POLICY_CHANGE",
            Effect::ScheduleChange => "SCHEDULE_CHANGE",
            Effect::ServiceChange => "SERVICE_CHANGE",
            Effect::Shuttle => "SHUTTLE",
            Effect::SnowRoute => "SNOW_ROUTE",
            Effect::StationClosure => "STATION_CLOSURE",
            Effect::StationIssue => "STATION_ISSUE",
            Effect::StopClosure => "STOP_CLOSURE",
            Effect::StopMove => "STOP_MOVE",
            Effect::StopMoved => "STOP_MOVED",
            Effect::Summary => "SUMMARY",
            Effect::Suspension => "SUSPENSION",
            Effect::TrackChange => "TRACK_CHANGE",
            Effect::UnknownEffect => "UNKNOWN_EFFECT",
        }
    }

    /// The value of a name, if it is one.
    pub fn from_name(s: &str) -> (r: Option<Effect>)
        ensures
            r == Effect::from_spec_name(s@),
    {
        if str_eq(s, "ACCESS_ISSUE") {
            Some(Effect::AccessIssue)
        } else if str_eq(s, "ADDITIONAL_SERVICE") {
            Some(Effect::AdditionalService)
        } else if str_eq(s, "AMBER_ALERT") {
            Some(Effect::AmberAlert)
        } else if str_eq(s, "BIKE_ISSUE") {
            Some(Effect::BikeIssue)
        } else if str_eq(s, "CANCELLATION") {
            Some(Effect::Cancellation)
        } else if str_eq(s, "DELAY") {
            Some(Effect::Delay)
        } else if str_eq(s, "DETOUR") {
            Some(Effect::Detour)
        } else if str_eq(s, "DOCK_CLOSURE") {
            Some(Effect::DockClosure)
        } else if str_eq(s, "DOCK_ISSUE") {
            Some(Effect::DockIssue)
        } else if str_eq(s, "ELEVATOR_CLOSURE") {
            Some(Effect::ElevatorClosure)
        } else if str_eq(s, "ESCALATOR_CLOSURE") {
            Some(Effect::EscalatorClosure)
        } else if str_eq(s, "EXTRA_SERVICE") {
            Some(Effect::ExtraService)
        } else if str_eq(s, "FACILITY_ISSUE") {
            Some(Effect::FacilityIssue)
        } else if str_eq(s, "MODIFIED_SERVICE") {
            Some(Effect::ModifiedService)
        } else if str_eq(s, "NO_SERVICE") {
            Some(Effect::NoService)
        } else if str_eq(s, "OTHER_EFFECT") {
            Some(Effect::OtherEffect)
        } else if str_eq(s, "PARKING_CLOSURE") {
            Some(Effect::ParkingClosure)
        } else if str_eq(s, "PARKING_ISSUE") {
            Some(Effect::ParkingIssue)
        } else if str_eq(s, "POLICY_CHANGE") {
            Some(Effect::PolicyChange)
        } else if str_eq(s, "SCHEDULE_CHANGE") {
            Some(Effect::ScheduleChange)
        } else if str_eq(s, "SERVICE_CHANGE") {
            Some(Effect::ServiceChange)
        } else if str_eq(s, "SHUTTLE") {
            Some(Effect::Shuttle)
        } else if str_eq(s, "SNOW_ROUTE") {
            Some(Effect::SnowRoute)
        } else if str_eq(s, "STATION_CLOSURE") {
            Some(Effect::StationClosure)
        } else if str_eq(s, "STATION_ISSUE") {
            Some(Effect::StationIssue)
        } else if str_eq(s, "STOP_CLOSURE") {
            Some(Effect::StopClosure)
        } else if str_eq(s, "STOP_MOVE") {
            Some(Effect::StopMove)
        } else if str_eq(s, "STOP_MOVED") {
            Some(Effect::StopMoved)
        } else if str_eq(s, "SUMMARY") {
            Some(Effect::Summary)
        } else if str_eq(s, "SUSPENSION") {
            Some(Effect::Suspension)
        } else if str_eq(s, "TRACK_CHANGE") {
            Some(Effect::TrackChange)
        } else if str_eq(s, "UNKNOWN_EFFECT") {
            Some(Effect::UnknownEffect)
        } else {
            None
        }
    }
}

/// A JSON string holding one of the names.
impl FromJson for Effect {
    open spec fn decodes_to(j: JsonValue, v: Self) -> bool {
        j matches JsonValue::Str(s) && Effect::from_spec_name(s@) == Some(v)
    }

    open spec fn decodable(j: JsonValue) -> bool {
        j matches JsonValue::Str(s) && Effect::from_spec_name(s@) is Some
    }

    fn from_json(j: JsonValue) -> (r: Option<Self>) {
        match j {
            JsonValue::Str(s) => Effect::from_name(s.as_str()),
            _ => None,
        }
    }
}

/// Cause of an alert.
#[derive(Debug, PartialEq, Eq, Clone, Copy, Structural)]
pub enum Cause {
    /// Accident.
    Accident,
    /// Amtrak.
    Amtrak,
    /// An earlier mechanical problem.
    AnEarlierMechanicalProblem,
    /// An earlier signal problem.
    AnEarlierSignalProblem,
    /// Autos impeding service.
    AutosImpedingService,
    /// Coast guard restriction.
    CoastGuardRestriction,
    /// Congestion.
    Congestion,
    /// Construction.
    Construction,
    /// Crossing malfunction.
    CrossingMalfunction,
    /// Demonstration.
    Demonstration,
    /// Disabled bus.
    DisabledBus,
    /// Disabled train.
    DisabledTrain,
    /// Drawbridge being raised.
    DrawbridgeBeingRaised,
    /// Electrical work.
    ElectricalWork,
    /// Fire.
    Fire,
    /// Fog.
    Fog,
    /// Freight train interference.
    FreightTrainInterference,
    /// Hazmat condition.
    HazmatCondition,
    /// Heavy ridership.
    HeavyRidership,
    /// High winds.
    HighWinds,
    /// Holiday.
    Holiday,
    /// Hurricane.
    Hurricane,
    /// Ice in harbor.
    IceInHarbor,
    /// Maintenance.
    Maintenance,
    /// Mechanical problem.
    MechanicalProblem,
    /// Medical emergency.
    MedicalEmergency,
    /// Parade.
    Parade,
    /// Police action.
    PoliceAction,
    /// Power problem.
    PowerProblem,
    /// Severe weather.
    SevereWeather,
    /// Signal problem.
    SignalProblem,
    /// Slippery rail.
    SlipperyRail,
    /// Snow.
    Snow,
    /// Special event.
    SpecialEvent,
    /// Speed restriction.
    SpeedRestriction,
    /// Switch problem.
    SwitchProblem,
    /// Tie replacement.
    TieReplacement,
    /// Track problem.
    TrackProblem,
    /// Track work.
    TrackWork,
    /// Traffic.
    Traffic,
    /// Unruly passenger.
    UnrulyPassenger,
    /// Unknown cause.
    UnknownCause,
    /// Weather.
    Weather,
}

impl Cause {
    /// The name of a value in the API.
    pub open spec fn spec_name(self) -> Seq<char> {
        match self {
            Cause::Accident => "ACCIDENT"@,
            Cause::Amtrak => "AMTRAK"@,
            Cause::AnEarlierMechanicalProblem => "AN_EARLIER_MECHANICAL_PROBLEM"@,
            Cause::AnEarlierSignalProblem => "AN_EARLIER_SIGNAL_PROBLEM"@,
            Cause::AutosImpedingService => "AUTOS_IMPEDING_SERVICE"@,
            Cause::CoastGuardRestriction => "COAST_GUARD_RESTRICTION"@,
            Cause::Congestion => "CONGESTION"@,
            Cause::Construction => "CONSTRUCTION"@,
            Cause::CrossingMalfunction => "CROSSING_MALFUNCTION"@,
            Cause::Demonstration => "DEMONSTRATION"@,
            Cause::DisabledBus => "DISABLED_BUS"@,
            Cause::DisabledTrain => "DISABLED_TRAIN"@,
            Cause::DrawbridgeBeingRaised => "DRAWBRIDGE_BEING_RAISED"@,
            Cause::ElectricalWork => "ELECTRICAL_WORK"@,
            Cause::Fire => "FIRE"@,
            Cause::Fog => "FOG"@,
            Cause::FreightTrainInterference => "FREIGHT_TRAIN_INTERFERENCE"@,
            Cause::HazmatCondition => "HAZMAT_CONDITION"@,
            Cause::HeavyRidership => "HEAVY_RIDERSHIP"@,
            Cause::HighWinds => "HIGH_WINDS"@,
            Cause::Holiday => "HOLIDAY"@,
            Cause::Hurricane => "HURRICANE"@,
            Cause::IceInHarbor => "ICE_IN_HARBOR"@,
            Cause::Maintenance => "MAINTENANCE"@,
            Cause::MechanicalProblem => "MECHANICAL_PROBLEM"@,
            Cause::MedicalEmergency => "MEDICAL_EMERGENCY"@,
            Cause::Parade => "PARADE"@,
            Cause::PoliceAction => "POLICE_ACTION"@,
            Cause::PowerProblem => "POWER_PROBLEM"@,
            Cause::SevereWeather => "SEVERE_WEATHER"@,
            Cause::SignalProblem => "SIGNAL_PROBLEM"@,
            Cause::SlipperyRail => "SLIPPERY_RAIL"@,
            Cause::Snow => "SNOW"@,
            Cause::SpecialEvent => "SPECIAL_EVENT"@,
            Cause::SpeedRestriction => "SPEED_RESTRICTION"@,
            Cause::SwitchProblem => "SWITCH_PROBLEM"@,
            Cause::TieReplacement => "TIE_REPLACEMENT"@,
            Cause::TrackProblem => "TRACK_PROBLEM"@,
            Cause::TrackWork => "TRACK_WORK"@,
            Cause::Traffic => "TRAFFIC"@,
            Cause::UnrulyPassenger => "UNRULY_PASSENGER"@,
            Cause::UnknownCause => "UNKNOWN_CAUSE"@,
            Cause::Weather => "WEATHER"@,
        }
    }

    /// The value of a name, if it is one.
    pub open spec fn from_spec_name(s: Seq<char>) -> Option<Cause> {
        if s == "ACCIDENT"@ {
            Some(Cause::Accident)
        } else if s == "AMTRAK"@ {
            Some(Cause::Amtrak)
        } else if s == "AN_EARLIER_MECHANICAL_PROBLEM"@ {
            Some(Cause::AnEarlierMechanicalProblem)
        } else if s == "AN_EARLIER_SIGNAL_PROBLEM"@ {
            Some(Cause::AnEarlierSignalProblem)
        } else if s == "AUTOS_IMPEDING_SERVICE"@ {
            Some(Cause::AutosImpedingService)
        } else if s == "COAST_GUARD_RESTRICTION"@ {
            Some(Cause::CoastGuardRestriction)
        } else if s == "CONGESTION"@ {
            Some(Cause::Congestion)
        } else if s == "CONSTRUCTION"@ {
            Some(Cause::Construction)
        } else if s == "CROSSING_MALFUNCTION"@ {
            Some(Cause::CrossingMalfunction)
        } else if s == "DEMONSTRATION"@ {
            Some(Cause::Demonstration)
        } else if s == "DISABLED_BUS"@ {
            Some(Cause::DisabledBus)
        } else if s == "DISABLED_TRAIN"@ {
            Some(Cause::DisabledTrain)
        } else if s == "DRAWBRIDGE_BEING_RAISED"@ {
            Some(Cause::DrawbridgeBeingRaised)
        } else if s == "ELECTRICAL_WORK"@ {
            Some(Cause::ElectricalWork)
        } else if s == "FIRE"@ {
            Some(Cause::Fire)
        } else if s == "FOG"@ {
            Some(Cause::Fog)
        } else if s == "FREIGHT_TRAIN_INTERFERENCE"@ {
            Some(Cause::FreightTrainInterference)
        } else if s == "HAZMAT_CONDITION"@ {
            Some(Cause::HazmatCondition)
        } else if s == "HEAVY_RIDERSHIP"@ {
            Some(Cause::HeavyRidership)
        } else if s == "HIGH_WINDS"@ {
            Some(Cause::HighWinds)
        } else if s == "HOLIDAY"@ {
            Some(Cause::Holiday)
        } else if s == "HURRICANE"@ {
            Some(Cause::Hurricane)
        } else if s == "ICE_IN_HARBOR"@ {
            Some(Cause::IceInHarbor)
        } else if s == "MAINTENANCE"@ {
            Some(Cause::Maintenance)
        } else if s == "MECHANICAL_PROBLEM"@ {
            Some(Cause::MechanicalProblem)
        } else if s == "MEDICAL_EMERGENCY"@ {
            Some(Cause::MedicalEmergency)
        } else if s == "PARADE"@ {
            Some(Cause::Parade)
        } else if s == "POLICE_ACTION"@ {
            Some(Cause::PoliceAction)
        } else if s == "POWER_PROBLEM"@ {
            Some(Cause::PowerProblem)
        } else if s == "SEVERE_WEATHER"@ {
            Some(Cause::SevereWeather)
        } else if s == "SIGNAL_PROBLEM"@ {
            Some(Cause::SignalProblem)
        } else if s == "SLIPPERY_RAIL"@ {
            Some(Cause::SlipperyRail)
        } else if s == "SNOW"@ {
            Some(Cause::Snow)
        } else if s == "SPECIAL_EVENT"@ {
            Some(Cause::SpecialEvent)
        } else if s == "SPEED_RESTRICTION"@ {
            Some(Cause::SpeedRestriction)
        } else if s == "SWITCH_PROBLEM"@ {
            Some(Cause::SwitchProblem)
        } else if s == "TIE_REPLACEMENT"@ {
            Some(Cause::TieReplacement)
        } else if s == "TRACK_PROBLEM"@ {
            Some(Cause::TrackProblem)
        } else if s == "TRACK_WORK"@ {
            Some(Cause::TrackWork)
        } else if s == "TRAFFIC"@ {
            Some(Cause::Traffic)
        } else if s == "UNRULY_PASSENGER"@ {
            Some(Cause::UnrulyPassenger)
        } else if s == "UNKNOWN_CAUSE"@ {
            Some(Cause::UnknownCause)
        } else if s == "WEATHER"@ {
            Some(Cause::Weather)
        } else {
            None
        }
    }

    /// The name of the value in the API.
    pub fn name(&self) -> (r: &'static str)
        ensures
            r@ == self.spec_name(),
    {
        match self {
            Cause::Accident => "ACCIDENT",
            Cause::Amtrak => "AMTRAK",
            Cause::AnEarlierMechanicalProblem => "AN_EARLIER_MECHANICAL_PROBLEM",
            Cause::AnEarlierSignalProblem => "AN_EARLIER_SIGNAL_PROBLEM",
            Cause::AutosImpedingService => "AUTOS_IMPEDING_SERVICE",
            Cause::CoastGuardRestriction => "COAST_GUARD_RESTRICTION",
            Cause::Congestion => "CONGESTION",
            Cause::Construction => "CONSTRUCTION",
            Cause::CrossingMalfunction => "CROSSING_MALFUNCTION",
            Cause::Demonstration => "DEMONSTRATION",
            Cause::DisabledBus => "DISABLED_BUS",
            Cause::DisabledTrain => "DISABLED_TRAIN",
            Cause::DrawbridgeBeingRaised => "DRAWBRIDGE_BEING_RAISED",
            Cause::ElectricalWork => "ELECTRICAL_WORK",
            Cause::Fire => "FIRE",
            Cause::Fog => "FOG",
            Cause::FreightTrainInterference => "FREIGHT_TRAIN_INTERFERENCE",
            Cause::HazmatCondition => "HAZMAT_CONDITION",
            Cause::HeavyRidership => "HEAVY_RIDERSHIP",
            Cause::HighWinds => "HIGH_WINDS",
            Cause::Holiday => "HOLIDAY",
            Cause::Hurricane => "HURRICANE",
            Cause::IceInHarbor => "ICE_IN_HARBOR",
            Cause::Maintenance => "MAINTENANCE",
            Cause::MechanicalProblem => "MECHANICAL_PROBLEM",
            Cause::MedicalEmergency => "MEDICAL_EMERGENCY",
            Cause::Parade => "PARADE",
            Cause::PoliceAction => "POLICE_ACTION",
            Cause::PowerProblem => "POWER_PROBLEM",
            Cause::SevereWeather => "SEVERE_WEATHER",
            Cause::SignalProblem => "SIGNAL_PROBLEM",
            Cause::SlipperyRail => "SLIPPERY_RAIL",
            Cause::Snow => "SNOW",
            Cause::SpecialEvent => "SPECIAL_EVENT",
            Cause::SpeedRestriction => "SPEED_RESTRICTION",
            Cause::SwitchProblem => "SWITCH_PROBLEM",
            Cause::TieReplacement => "TIE_REPLACEMENT",
            Cause::TrackProblem => "TRACK_PROBLEM",
            Cause::TrackWork => "TRACK_WORK",
            Cause::Traffic => "TRAFFIC",
            Cause::UnrulyPassenger => "UNRULY_PASSENGER",
            Cause::UnknownCause => "UNKNOWN_CAUSE",
            Cause::Weather => "WEATHER",
        }
    }

    /// The value of a name, if it is one.
    pub fn from_name(s: &str) -> (r: Option<Cause>)
        ensures
            r == Cause::from_spec_name(s@),
    {
        if str_eq(s, "ACCIDENT") {
            Some(Cause::Accident)
        } else if str_eq(s, "AMTRAK") {
            Some(Cause::Amtrak)
        } else if str_eq(s, "AN_EARLIER_MECHANICAL_PROBLEM") {
            Some(Cause::AnEarlierMechanicalProblem)
        } else if str_eq(s, "AN_EARLIER_SIGNAL_PROBLEM") {
            Some(Cause::AnEarlierSignalProblem)
        } else if str_eq(s, "AUTOS_IMPEDING_SERVICE") {
            Some(Cause::AutosImpedingService)
        } else if str_eq(s, "COAST_GUARD_RESTRICTION") {
            Some(Cause::CoastGuardRestriction)
        } else if str_eq(s, "CONGESTION") {
            Some(Cause::Congestion)
        } else if str_eq(s, "CONSTRUCTION") {
            Some(Cause::Construction)
        } else if str_eq(s, "CROSSING_MALFUNCTION") {
            Some(Cause::CrossingMalfunction)
        } else if str_eq(s, "DEMONSTRATION") {
            Some(Cause::Demonstration)
        } else if str_eq(s, "DISABLED_BUS") {
            Some(Cause::DisabledBus)
        } else if str_eq(s, "DISABLED_TRAIN") {
            Some(Cause::DisabledTrain)
        } else if str_eq(s, "DRAWBRIDGE_BEING_RAISED") {
            Some(Cause::DrawbridgeBeingRaised)
        } else if str_eq(s, "ELECTRICAL_WORK") {
            Some(Cause::ElectricalWork)
        } else if str_eq(s, "FIRE") {
            Some(Cause::Fire)
        } else if str_eq(s, "FOG") {
            Some(Cause::Fog)
        } else if str_eq(s, "FREIGHT_TRAIN_INTERFERENCE") {
            Some(Cause::FreightTrainInterference)
        } else if str_eq(s, "HAZMAT_CONDITION") {
            Some(Cause::HazmatCondition)
        } else if str_eq(s, "HEAVY_RIDERSHIP") {
            Some(Cause::HeavyRidership)
        } else if str_eq(s, "HIGH_WINDS") {
            Some(Cause::HighWinds)
        } else if str_eq(s, "HOLIDAY") {
            Some(Cause::Holiday)
        } else if str_eq(s, "HURRICANE") {
            Some(Cause::Hurricane)
        } else if str_eq(s, "ICE_IN_HARBOR") {
            Some(Cause::IceInHarbor)
        } else if str_eq(s, "MAINTENANCE") {
            Some(Cause::Maintenance)
        } else if str_eq(s, "MECHANICAL_PROBLEM") {
            Some(Cause::MechanicalProblem)
        } else if str_eq(s, "MEDICAL_EMERGENCY") {
            Some(Cause::MedicalEmergency)
        } else if str_eq(s, "PARADE") {
            Some(Cause::Parade)
        } else if str_eq(s, "POLICE_ACTION") {
            Some(Cause::PoliceAction)
        } else if str_eq(s, "POWER_PROBLEM") {
            Some(Cause::PowerProblem)
        } else if str_eq(s, "SEVERE_WEATHER") {
            Some(Cause::SevereWeather)
        } else if str_eq(s, "SIGNAL_PROBLEM") {
            Some(Cause::SignalProblem)
        } else if str_eq(s, "SLIPPERY_RAIL") {
            Some(Cause::SlipperyRail)
        } else if str_eq(s, "SNOW") {
            Some(Cause::Snow)
        } else if str_eq(s, "SPECIAL_EVENT") {
            Some(Cause::SpecialEvent)
        } else if str_eq(s, "SPEED_RESTRICTION") {
            Some(Cause::SpeedRestriction)
        } else if str_eq(s, "SWITCH_PROBLEM") {
            Some(Cause::SwitchProblem)
        } else if str_eq(s, "TIE_REPLACEMENT") {
            Some(Cause::TieReplacement)
        } else if str_eq(s, "TRACK_PROBLEM") {
            Some(Cause::TrackProblem)
        } else if str_eq(s, "TRACK_WORK") {
            Some(Cause::TrackWork)
        } else if str_eq(s, "TRAFFIC") {
            Some(Cause::Traffic)
        } else if str_eq(s, "UNRULY_PASSENGER") {
            Some(Cause::UnrulyPassenger)
        } else if str_eq(s, "UNKNOWN_CAUSE") {
            Some(Cause::UnknownCause)
        } else if str_eq(s, "WEATHER") {
            Some(Cause::Weather)
        } else {
            None
        }
    }
}

/// A JSON string holding one of the names.
impl FromJson for Cause {
    open spec fn decodes_to(j: JsonValue, v: Self) -> bool {
        j matches JsonValue::Str(s) && Cause::from_spec_name(s@) == Some(v)
    }

    open spec fn decodable(j: JsonValue) -> bool {
        j matches JsonValue::Str(s) && Cause::from_spec_name(s@) is Some
    }

    fn from_json(j: JsonValue) -> (r: Option<Self>) {
        match j {
            JsonValue::Str(s) => Cause::from_name(s.as_str()),
            _ => None,
        }
    }
}

/// Activity affected by an alert.
#[derive(Debug, PartialEq, Eq, Clone, Copy, Structural)]
pub enum Activity {
    /// Board.
    Board,
    /// Bringing bike.
    BringingBike,
    /// Exit.
    Exit,
    /// Park car.
    ParkCar,
    /// Ride.
    Ride,
    /// Store bike.
    StoreBike,
    /// Using escalator.
    UsingEscalator,
    /// Using wheelchair.
    UsingWheelchair,
}

impl Activity {
    /// The name of a value in the API.
    pub open spec fn spec_name(self) -> Seq<char> {
        match self {
            Activity::Board => "BOARD"@,
            Activity::BringingBike => "BRINGING_BIKE"@,
            Activity::Exit => "EXIT"@,
            Activity::ParkCar => "PARK_CAR"@,
            Activity::Ride => "RIDE"@,
            Activity::StoreBike => "STORE_BIKE"@,
            Activity::UsingEscalator => "USING_ESCALATOR"@,
            Activity::UsingWheelchair => "USING_WHEELCHAIR"@,
        }
    }

    /// The value of a name, if it is one.
    pub open spec fn from_spec_name(s: Seq<char>) -> Option<Activity> {
        if s == "BOARD"@ {
            Some(Activity::Board)
        } else if s == "BRINGING_BIKE"@ {
            Some(Activity::BringingBike)
        } else if s == "EXIT"@ {
            Some(Activity::Exit)
        } else if s == "PARK_CAR"@ {
            Some(Activity::ParkCar)
        } else if s == "RIDE"@ {
            Some(Activity::Ride)
        } else if s == "STORE_BIKE"@ {
            Some(Activity::StoreBike)
        } else if s == "USING_ESCALATOR"@ {
            Some(Activity::UsingEscalator)
        } else if s == "USING_WHEELCHAIR"@ {
            Some(Activity::UsingWheelchair)
        } else {
            None
        }
    }

    /// The name of the value in the API.
    pub fn name(&self) -> (r: &'static str)
        ensures
            r@ == self.spec_name(),
    {
        match self {
            Activity::Board => "BOARD",
            Activity::BringingBike => "BRINGING_BIKE",
            Activity::Exit => "EXIT",
            Activity::ParkCar => "PARK_CAR",
            Activity::Ride => "RIDE",
            Activity::StoreBike => "STORE_BIKE",
            Activity::UsingEscalator => "USING_ESCALATOR",
            Activity::UsingWheelchair => "USING_WHEELCHAIR",
        }
    }

    /// The value of a name, if it is one.
    pub fn from_name(s: &str) -> (r: Option<Activity>)
        ensures
            r == Activity::from_spec_name(s@),
    {
        if str_eq(s, "BOARD") {
            Some(Activity::Board)
        } else if str_eq(s, "BRINGING_BIKE") {
            Some(Activity::BringingBike)
        } else if str_eq(s, "EXIT") {
            Some(Activity::Exit)
        } else if str_eq(s, "PARK_CAR") {
            Some(Activity::ParkCar)
        } else if str_eq(s, "RIDE") {
            Some(Activity::Ride)
        } else if str_eq(s, "STORE_BIKE") {
            Some(Activity::StoreBike)
        } else if str_eq(s, "USING_ESCALATOR") {
            Some(Activity::UsingEscalator)
        } else if str_eq(s, "USING_WHEELCHAIR") {
            Some(Activity::UsingWheelchair)
        } else {
            None
        }
    }
}

/// A JSON string holding one of the names.
impl FromJson for Activity {
    open spec fn decodes_to(j: JsonValue, v: Self) -> bool {
        j matches JsonValue::Str(s) && Activity::from_spec_name(s@) == Some(v)
    }

    open spec fn decodable(j: JsonValue) -> bool {
        j matches JsonValue::Str(s) && Activity::from_spec_name(s@) is Some
    }

    fn from_json(j: JsonValue) -> (r: Option<Self>) {
        match j {
            JsonValue::Str(s) => Activity::from_name(s.as_str()),
            _ => None,
        }
    }
}

/// Decodes an active period.
impl FromJson for ActivePeriod {
    open spec fn decodes_to(j: JsonValue, v: Self) -> bool {
        &&& j is Object
        &&& <DateTime as FromJson>::decodes_to(or_null(member(j, "start"@)), v.start)
        &&& <Option<DateTime> as FromJson>::decodes_to(or_null(member(j, "end"@)), v.end)
    }

    open spec fn decodable(j: JsonValue) -> bool {
        &&& j is Object
        &&& <DateTime as FromJson>::decodable(or_null(member(j, "start"@)))
        &&& <Option<DateTime> as FromJson>::decodable(or_null(member(j, "end"@)))
    }

    fn from_json(j: JsonValue) -> (r: Option<Self>) {
        let mut ms = match into_members(j) {
            Some(ms) => ms,
            None => return None,
        };
        proof {
            reveal_strlit("start");
            reveal_strlit("end");
            // The member names differ in length or in some character, so taking
            // one member leaves the lookup of the others unchanged.
            assert("start"@.len() == 5);
            assert("end"@.len() == 3);
        }
        let start = take_or_null(&mut ms, "start");
        let end = take_or_null(&mut ms, "end");
        let start = match <DateTime as FromJson>::from_json(start) {
            Some(x) => x,
            None => return None,
        };
        let end = match <Option<DateTime> as FromJson>::from_json(end) {
            Some(x) => x,
            None => return None,
        };
        Some(ActivePeriod { start, end })
    }
}

/// Decodes an informed entity.
impl FromJson for InformedEntity {
    open spec fn decodes_to(j: JsonValue, v: Self) -> bool {
        &&& j is Object
        &&& <Option<String> as FromJson>::decodes_to(or_null(member(j, "trip"@)), v.trip)
        &&& <Option<String> as FromJson>::decodes_to(or_null(member(j, "stop"@)), v.stop)
        &&& <Option<RouteType> as FromJson>::decodes_to(or_null(member(j, "route_type"@)), v.route_type)
        &&& <Option<String> as FromJson>::decodes_to(or_null(member(j, "route"@)), v.route)
        &&& <Option<String> as FromJson>::decodes_to(or_null(member(j, "facility"@)), v.facility)
        &&& <Option<u8> as FromJson>::decodes_to(or_null(member(j, "direction_id"@)), v.direction_id)
        &&& <Vec<Activity> as FromJson>::decodes_to(or_null(member(j, "activities"@)), v.activities)
    }

    open spec fn decodable(j: JsonValue) -> bool {
        &&& j is Object
        &&& <Option<String> as FromJson>::decodable(or_null(member(j, "trip"@)))
        &&& <Option<String> as FromJson>::decodable(or_null(member(j, "stop"@)))
        &&& <Option<RouteType> as FromJson>::decodable(or_null(member(j, "route_type"@)))
        &&& <Option<String> as FromJson>::decodable(or_null(member(j, "route"@)))
        &&& <Option<String> as FromJson>::decodable(or_null(member(j, "facility"@)))
        &&& <Option<u8> as FromJson>::decodable(or_null(member(j, "direction_id"@)))
        &&& <Vec<Activity> as FromJson>::decodable(or_null(member(j, "activities"@)))
    }

    fn from_json(j: JsonValue) -> (r: Option<Self>) {
        let mut ms = match into_members(j) {
            Some(ms) => ms,
            None => return None,
        };
        proof {
            reveal_strlit("trip");
            reveal_strlit("stop");
            reveal_strlit("route_type");
            reveal_strlit("route");
            reveal_strlit("facility");
            reveal_strlit("direction_id");
            reveal_strlit("activities");
            // The member names differ in length or in some character, so taking
            // one member leaves the lookup of the others unchanged.
            assert("trip"@.len() == 4);
            assert("stop"@.len() == 4);
            assert("route_type"@.len() == 10);
            assert("route"@.len() == 5);
            assert("facility"@.len() == 8);
            assert("direction_id"@.len() == 12);
            assert("activities"@.len() == 10);
            assert("trip"@[0] == 't');
            assert("stop"@[0] == 's');
            assert("route_type"@[0] == 'r');
            assert("activities"@[0] == 'a');
        }
        let trip = take_or_null(&mut ms, "trip");
        let stop = take_or_null(&mut ms, "stop");
        let route_type = take_or_null(&mut ms, "route_type");
        let route = take_or_null(&mut ms, "route");
        let facility = take_or_null(&mut ms, "facility");
        let direction_id = take_or_null(&mut ms, "direction_id");
        let activities = take_or_null(&mut ms, "activities");
        let trip = match <Option<String> as FromJson>::from_json(trip) {
            Some(x) => x,
            None => return None,
        };
        let stop = match <Option<String> as FromJson>::from_json(stop) {
            Some(x) => x,
            None => return None,
        };
        let route_type = match <Option<RouteType> as FromJson>::from_json(route_type) {
            Some(x) => x,
            None => return None,
        };
        let route = match <Option<String> as FromJson>::from_json(route) {
            Some(x) => x,
            None => return None,
        };
        let facility = match <Option<String> as FromJson>::from_json(facility) {
            Some(x) => x,
            None => return None,
        };
        let direction_id = match <Option<u8> as FromJson>::from_json(direction_id) {
            Some(x) => x,
            None => return None,
        };
        let activities = match <Vec<Activity> as FromJson>::from_json(activities) {
            Some(x) => x,
            None => return None,
        };
        Some(InformedEntity { trip, stop, route_type, route, facility, direction_id, activities })
    }
}

/// Decodes the attributes of an alert.
impl FromJson for AlertAttributes {
    open spec fn decodes_to(j: JsonValue, v: Self) -> bool {
        &&& j is Object
        &&& <Option<String> as FromJson>::decodes_to(or_null(member(j, "url"@)), v.url)
        &&& <DateTime as FromJson>::decodes_to(or_null(member(j, "created_at"@)), v.created_at)
        &&& <DateTime as FromJson>::decodes_to(or_null(member(j, "updated_at"@)), v.updated_at)
        &&& <Option<String> as FromJson>::decodes_to(or_null(member(j, "timeframe"@)), v.timeframe)
        &&& <String as FromJson>::decodes_to(or_null(member(j, "header"@)), v.header)
        &&& <String as FromJson>::decodes_to(or_null(member(j, "short_header"@)), v.short_header)
        &&& <u8 as FromJson>::decodes_to(or_null(member(j, "severity"@)), v.severity)
        &&& <String as FromJson>::decodes_to(or_null(member(j, "service_effect"@)), v.service_effect)
        &&& <Lifecycle as FromJson>::decodes_to(or_null(member(j, "lifecycle"@)), v.lifecycle)
        &&& <Effect as FromJson>::decodes_to(or_null(member(j, "effect"@)), v.effect)
        &&& <Option<String> as FromJson>::decodes_to(or_null(member(j, "description"@)), v.description)
        &&& <Cause as FromJson>::decodes_to(or_null(member(j, "cause"@)), v.cause)
        &&& <Option<String> as FromJson>::decodes_to(or_null(member(j, "banner"@)), v.banner)
        &&& <Vec<ActivePeriod> as FromJson>::decodes_to(or_null(member(j, "active_period"@)), v.active_period)
        &&& <Vec<InformedEntity> as FromJson>::decodes_to(or_null(member(j, "informed_entity"@)), v.informed_entity)
    }

    open spec fn decodable(j: JsonValue) -> bool {
        &&& j is Object
        &&& <Option<String> as FromJson>::decodable(or_null(member(j, "url"@)))
        &&& <DateTime as FromJson>::decodable(or_null(member(j, "created_at"@)))
        &&& <DateTime as FromJson>::decodable(or_null(member(j, "updated_at"@)))
        &&& <Option<String> as FromJson>::decodable(or_null(member(j, "timeframe"@)))
        &&& <String as FromJson>::decodable(or_null(member(j, "header"@)))
        &&& <String as FromJson>::decodable(or_null(member(j, "short_header"@)))
        &&& <u8 as FromJson>::decodable(or_null(member(j, "severity"@)))
        &&& <String as FromJson>::decodable(or_null(member(j, "service_effect"@)))
        &&& <Lifecycle as FromJson>::decodable(or_null(member(j, "lifecycle"@)))
        &&& <Effect as FromJson>::decodable(or_null(member(j, "effect"@)))
        &&& <Option<String> as FromJson>::decodable(or_null(member(j, "description"@)))
        &&& <Cause as FromJson>::decodable(or_null(member(j, "cause"@)))
        &&& <Option<String> as FromJson>::decodable(or_null(member(j, "banner"@)))
        &&& <Vec<ActivePeriod> as FromJson>::decodable(or_null(member(j, "active_period"@)))
        &&& <Vec<InformedEntity> as FromJson>::decodable(or_null(member(j, "informed_entity"@)))
    }

    fn from_json(j: JsonValue) -> (r: Option<Self>) {
        let mut ms = match into_members(j) {
            Some(ms) => ms,
            None => return None,
        };
        proof {
            reveal_strlit("url");
            reveal_strlit("created_at");
            reveal_strlit("updated_at");
            reveal_strlit("timeframe");
            reveal_strlit("header");
            reveal_strlit("short_header");
            reveal_strlit("severity");
            reveal_strlit("service_effect");
            reveal_strlit("lifecycle");
            reveal_strlit("effect");
            reveal_strlit("description");
            reveal_strlit("cause");
            reveal_strlit("banner");
            reveal_strlit("active_period");
            reveal_strlit("informed_entity");
            // The member names differ in length or in some character, so taking
            // one member leaves the lookup of the others unchanged.
            assert("url"@.len() == 3);
            assert("created_at"@.len() == 10);
            assert("updated_at"@.len() == 10);
            assert("timeframe"@.len() == 9);
            assert("header"@.len() == 6);
            assert("short_header"@.len() == 12);
            assert("severity"@.len() == 8);
            assert("service_effect"@.len() == 14);
            assert("lifecycle"@.len() == 9);
            assert("effect"@.len() == 6);
            assert("description"@.len() == 11);
            assert("cause"@.len() == 5);
            assert("banner"@.len() == 6);
            assert("active_period"@.len() == 13);
            assert("informed_entity"@.len() == 15);
            assert("created_at"@[0] == 'c');
            assert("updated_at"@[0] == 'u');
            assert("timeframe"@[0] == 't');
            assert("lifecycle"@[0] == 'l');
            assert("header"@[0] == 'h');
            assert("effect"@[0] == 'e');
            assert("banner"@[0] == 'b');
        }
        let url = take_or_null(&mut ms, "url");
        let created_at = take_or_null(&mut ms, "created_at");
        let updated_at = take_or_null(&mut ms, "updated_at");
        let timeframe = take_or_null(&mut ms, "timeframe");
        let header = take_or_null(&mut ms, "header");
        let short_header = take_or_null(&mut ms, "short_header");
        let severity = take_or_null(&mut ms, "severity");
        let service_effect = take_or_null(&mut ms, "service_effect");
        let lifecycle = take_or_null(&mut ms, "lifecycle");
        let effect = take_or_null(&mut ms, "effect");
        let description = take_or_null(&mut ms, "description");
        let cause = take_or_null(&mut ms, "cause");
        let banner = take_or_null(&mut ms, "banner");
        let active_period = take_or_null(&mut ms, "active_period");
        let informed_entity = take_or_null(&mut ms, "informed_entity");
        let url = match <Option<String> as FromJson>::from_json(url) {
            Some(x) => x,
            None => return None,
        };
        let created_at = match <DateTime as FromJson>::from_json(created_at) {
            Some(x) => x,
            None => return None,
        };
        let updated_at = match <DateTime as FromJson>::from_json(updated_at) {
            Some(x) => x,
            None => return None,
        };
        let timeframe = match <Option<String> as FromJson>::from_json(timeframe) {
            Some(x) => x,
            None => return None,
        };
        let header = match <String as FromJson>::from_json(header) {
            Some(x) => x,
            None => return None,
        };
        let short_header = match <String as FromJson>::from_json(short_header) {
            Some(x) => x,
            None => return None,
        };
        let severity = match <u8 as FromJson>::from_json(severity) {
            Some(x) => x,
            None => return None,
        };
        let service_effect = match <String as FromJson>::from_json(service_effect) {
            Some(x) => x,
            None => return None,
        };
        let lifecycle = match <Lifecycle as FromJson>::from_json(lifecycle) {
            Some(x) => x,
            None => return None,
        };
        let effect = match <Effect as FromJson>::from_json(effect) {
            Some(x) => x,
            None => return None,
        };
        let description = match <Option<String> as FromJson>::from_json(description) {
            Some(x) => x,
            None => return None,
        };
        let cause = match <Cause as FromJson>::from_json(cause) {
            Some(x) => x,
            None => return None,
        };
        let banner = match <Option<String> as FromJson>::from_json(banner) {
            Some(x) => x,
            None => return None,
        };
        let active_period = match <Vec<ActivePeriod> as FromJson>::from_json(active_period) {
            Some(x) => x,
            None => return None,
        };
        let informed_entity = match <Vec<InformedEntity> as FromJson>::from_json(informed_entity) {
            Some(x) => x,
            None => return None,
        };
        Some(AlertAttributes { url, created_at, updated_at, timeframe, header, short_header, severity, service_effect, lifecycle, effect, description, cause, banner, active_period, informed_entity })
    }
}

} // verus!
