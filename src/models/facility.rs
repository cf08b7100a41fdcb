//! Data models for facilities.

use vstd::prelude::*;

use crate::json::{str_eq, FromJson, JsonValue};

verus! {

/// Type of a facility.
#[derive(Debug, PartialEq, Eq, Clone, Copy, Structural)]
pub enum FacilityType {
    /// Bike storage.
    BikeStorage,
    /// Bridge plate.
    BridgePlate,
    /// Electric car chargers.
    ElectricCarChargers,
    /// Elevated subplatform.
    ElevatedSubplatform,
    /// Elevator.
    Elevator,
    /// Escalator.
    Escalator,
    /// Fare media assistance facility.
    FareMediaAssistanceFacility,
    /// Fare media assistant.
    FareMediaAssistant,
    /// Fare vending machine.
    FareVendingMachine,
    /// Fare vending retailer.
    FareVendingRetailer,
    /// Fully elevated platform.
    FullyElevatedPlatform,
    /// Other.
    Other,
    /// Parking area.
    ParkingArea,
    /// Parking media.
    ParkingMedia,
    /// Pick drop.
    PickDrop,
    /// Portable boarding lift.
    PortableBoardingLift,
    /// Ramp.
    Ramp,
    /// Taxi stand.
    TaxiStand,
    /// Ticket window.
    TicketWindow,
}

impl FacilityType {
    /// The name of a value in the API.
    pub open spec fn spec_name(self) -> Seq<char> {
        match self {
            FacilityType::BikeStorage => "BIKE_STORAGE"@,
            FacilityType::BridgePlate => "BRIDGE_PLATE"@,
            FacilityType::ElectricCarChargers => "ELECTRIC_CAR_CHARGERS"@,
            FacilityType::ElevatedSubplatform => "ELEVATED_SUBPLATFORM"@,
            FacilityType::Elevator => "ELEVATOR"@,
            FacilityType::Escalator => "ESCALATOR"@,
            FacilityType::FareMediaAssistanceFacility => "FARE_MEDIA_ASSISTANCE_FACILITY"@,
            FacilityType::FareMediaAssistant => "FARE_MEDIA_ASSISTANT"@,
            FacilityType::FareVendingMachine => "FARE_VENDING_MACHINE"@,
            FacilityType::FareVendingRetailer => "FARE_VENDING_RETAILER"@,
            FacilityType::FullyElevatedPlatform => "FULLY_ELEVATED_PLATFORM"@,
            FacilityType::Other => "OTHER"@,
            FacilityType::ParkingArea => "PARKING_AREA"@,
            FacilityType::ParkingMedia => "PARKING_MEDIA"@,
            FacilityType::PickDrop => "PICK_DROP"@,
            FacilityType::PortableBoardingLift => "PORTABLE_BOARDING_LIFT"@,
            FacilityType::Ramp => "RAMP"@,
            FacilityType::TaxiStand => "TAXI_STAND"@,
            FacilityType::TicketWindow => "TICKET_WINDOW"@,
        }
    }

    /// The value of a name, if it is one.
    pub open spec fn from_spec_name(s: Seq<char>) -> Option<FacilityType> {
        if s == "BIKE_STORAGE"@ {
            Some(FacilityType::BikeStorage)
        } else if s == "BRIDGE_PLATE"@ {
            Some(FacilityType::BridgePlate)
        } else if s == "ELECTRIC_CAR_CHARGERS"@ {
            Some(FacilityType::ElectricCarChargers)
        } else if s == "ELEVATED_SUBPLATFORM"@ {
            Some(FacilityType::ElevatedSubplatform)
        } else if s == "ELEVATOR"@ {
            Some(FacilityType::Elevator)
        } else if s == "ESCALATOR"@ {
            Some(FacilityType::Escalator)
        } else if s == "FARE_MEDIA_ASSISTANCE_FACILITY"@ {
            Some(FacilityType::FareMediaAssistanceFacility)
        } else if s == "FARE_MEDIA_ASSISTANT"@ {
            Some(FacilityType::FareMediaAssistant)
        } else if s == "FARE_VENDING_MACHINE"@ {
            Some(FacilityType::FareVendingMachine)
        } else if s == "FARE_VENDING_RETAILER"@ {
            Some(FacilityType::FareVendingRetailer)
        } else if s == "FULLY_ELEVATED_PLATFORM"@ {
            Some(FacilityType::FullyElevatedPlatform)
        } else if s == "OTHER"@ {
            Some(FacilityType::Other)
        } else if s == "PARKING_AREA"@ {
            Some(FacilityType::ParkingArea)
        } else if s == "PARKING_MEDIA"@ {
            Some(FacilityType::ParkingMedia)
        } else if s == "PICK_DROP"@ {
            Some(FacilityType::PickDrop)
        } else if s == "PORTABLE_BOARDING_LIFT"@ {
            Some(FacilityType::PortableBoardingLift)
        } else if s == "RAMP"@ {
            Some(FacilityType::Ramp)
        } else if s == "TAXI_STAND"@ {
            Some(FacilityType::TaxiStand)
        } else if s == "TICKET_WINDOW"@ {
            Some(FacilityType::TicketWindow)
        } else {
            None
        }
    }

    /// The name of the value in the API.
    pub fn name(&self) -> (r: &'static str)
        ensures
            r@ == self.spec_name(),
    {
        match self {
            FacilityType::BikeStorage => "BIKE_STORAGE",
            FacilityType::BridgePlate => "BRIDGE_PLATE",
            FacilityType::ElectricCarChargers => "ELECTRIC_CAR_CHARGERS",
            FacilityType::ElevatedSubplatform => "ELEVATED_SUBPLATFORM",
            FacilityType::Elevator => "ELEVATOR",
            FacilityType::Escalator => "ESCALATOR",
            FacilityType::FareMediaAssistanceFacility => "FARE_MEDIA_ASSISTANCE_FACILITY",
            FacilityType::FareMediaAssistant => "FARE_MEDIA_ASSISTANT",
            FacilityType::FareVendingMachine => "FARE_VENDING_MACHINE",
            FacilityType::FareVendingRetailer => "FARE_VENDING_RETAILER",
            FacilityType::FullyElevatedPlatform => "FULLY_ELEVATED_PLATFORM",
            FacilityType::Other => "OTHER",
            FacilityType::ParkingArea => "PARKING_AREA",
            FacilityType::ParkingMedia => "PARKING_MEDIA",
            FacilityType::PickDrop => "PICK_DROP",
            FacilityType::PortableBoardingLift => "PORTABLE_BOARDING_LIFT",
            FacilityType::Ramp => "RAMP",
            FacilityType::TaxiStand => "TAXI_STAND",
            FacilityType::TicketWindow => "TICKET_WINDOW",
        }
    }

    /// The value of a name, if it is one.
    pub fn from_name(s: &str) -> (r: Option<FacilityType>)
        ensures
            r == FacilityType::from_spec_name(s@),
    {
        if str_eq(s, "BIKE_STORAGE") {
            Some(FacilityType::BikeStorage)
        } else if str_eq(s, "BRIDGE_PLATE") {
            Some(FacilityType::BridgePlate)
        } else if str_eq(s, "ELECTRIC_CAR_CHARGERS") {
            Some(FacilityType::ElectricCarChargers)
        } else if str_eq(s, "ELEVATED_SUBPLATFORM") {
            Some(FacilityType::ElevatedSubplatform)
        } else if str_eq(s, "ELEVATOR") {
            Some(FacilityType::Elevator)
        } else if str_eq(s, "ESCALATOR") {
            Some(FacilityType::Escalator)
        } else if str_eq(s, "FARE_MEDIA_ASSISTANCE_FACILITY") {
            Some(FacilityType::FareMediaAssistanceFacility)
        } else if str_eq(s, "FARE_MEDIA_ASSISTANT") {
            Some(FacilityType::FareMediaAssistant)
        } else if str_eq(s, "FARE_VENDING_MACHINE") {
            Some(FacilityType::FareVendingMachine)
        } else if str_eq(s, "FARE_VENDING_RETAILER") {
            Some(FacilityType::FareVendingRetailer)
        } else if str_eq(s, "FULLY_ELEVATED_PLATFORM") {
            Some(FacilityType::FullyElevatedPlatform)
        } else if str_eq(s, "OTHER") {
            Some(FacilityType::Other)
        } else if str_eq(s, "PARKING_AREA") {
            Some(FacilityType::ParkingArea)
        } else if str_eq(s, "PARKING_MEDIA") {
            Some(FacilityType::ParkingMedia)
        } else if str_eq(s, "PICK_DROP") {
            Some(FacilityType::PickDrop)
        } else if str_eq(s, "PORTABLE_BOARDING_LIFT") {
            Some(FacilityType::PortableBoardingLift)
        } else if str_eq(s, "RAMP") {
            Some(FacilityType::Ramp)
        } else if str_eq(s, "TAXI_STAND") {
            Some(FacilityType::TaxiStand)
        } else if str_eq(s, "TICKET_WINDOW") {
            Some(FacilityType::TicketWindow)
        } else {
            None
        }
    }
}

/// A JSON string holding one of the names.
impl FromJson for FacilityType {
    open spec fn decodes_to(j: JsonValue, v: Self) -> bool {
        j matches JsonValue::Str(s) && FacilityType::from_spec_name(s@) == Some(v)
    }

    open spec fn decodable(j: JsonValue) -> bool {
        j matches JsonValue::Str(s) && FacilityType::from_spec_name(s@) is Some
    }

    fn from_json(j: JsonValue) -> (r: Option<Self>) {
        match j {
            JsonValue::Str(s) => FacilityType::from_name(s.as_str()),
            _ => None,
        }
    }
}

} // verus!
