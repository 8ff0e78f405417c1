//! Arrival estimates of buses at the stops of a route.

use vstd::prelude::*;

use crate::api::GeographicalLocation;
use crate::ids::{RouteId, StationCode, VehicleId};
use crate::route::{parse_label, BusRoute};
use crate::text::{message_with_number, message_with_text};

verus! {

/// How an arrival was estimated.
#[derive(Clone, Copy, PartialEq, Eq, Debug, Structural)]
pub enum ArrivalEstimation {
    LocationBased { eta_in_minutes: u32 },
    TimetableBased { eta_in_minutes: u32 },
    CurrentlyArrivingToStation,
    OnDetour,
}

/// Why a raw arrival could not be interpreted.
#[derive(PartialEq, Eq, Debug)]
pub enum ArrivalParseError {
    /// The estimated minutes were negative.
    InvalidEta(i32),
    /// The estimation kind was not 0, 1, 2 or 3.
    InvalidType(i32),
    /// The route name was not a route label.
    InvalidRouteName(String),
    /// The garage flag was neither 0 nor 1.
    InvalidDepot(i32),
    /// A stop's order number was negative.
    InvalidOrderNumber(i32),
}

impl ArrivalParseError {
    /// The message that explains the error.
    pub fn to_string(&self) -> (r: String)
        ensures
            self matches ArrivalParseError::InvalidRouteName(name) ==> r@
                == "Invalid bus route name: "@ + name@,
    {
        match self {
            ArrivalParseError::InvalidEta(_) => "Invalid value for `eta_min` field: does not fit in u32".to_owned(),
            ArrivalParseError::InvalidType(t) => message_with_number(
                "Unrecognized `type` field value: expected 0/1/2/3, got ",
                *t,
            ),
            ArrivalParseError::InvalidRouteName(name) => message_with_text(
                "Invalid bus route name: ",
                name.as_str(),
            ),
            ArrivalParseError::InvalidDepot(d) => message_with_number(
                "Unrecognized `depot` field value: expected 0 or 1, got ",
                *d,
            ),
            ArrivalParseError::InvalidOrderNumber(_) => "Invalid value of field `order_no`: not u32".to_owned(),
        }
    }
}

/// An arrival as the arrivals endpoint lists it.
pub struct RawArrivalData {
    pub route_id: String,
    pub vehicle_id: String,
    /// 0: location based, 1: timetable based, 2: arriving now, 3: on detour.
    pub estimation_type: i32,
    pub eta_min: i32,
    pub route_name: String,
    pub trip_name: String,
    /// 1 when the bus heads to the garage, else 0.
    pub depot: i32,
}

/// One expected arrival of a bus.
#[derive(Debug)]
pub struct ArrivalData {
    pub route_id: RouteId,
    pub vehicle_id: VehicleId,
    pub arrival_estimation: ArrivalEstimation,
    pub route: BusRoute,
    pub trip_name: String,
    pub heading_to_garage: bool,
}

/// The estimation a raw arrival denotes, when its fields are in range.
pub open spec fn estimation_of(estimation_type: i32, eta_min: i32) -> Option<ArrivalEstimation> {
    if eta_min < 0 {
        None
    } else if estimation_type == 0 {
        Some(ArrivalEstimation::LocationBased { eta_in_minutes: eta_min as u32 })
    } else if estimation_type == 1 {
        Some(ArrivalEstimation::TimetableBased { eta_in_minutes: eta_min as u32 })
    } else if estimation_type == 2 {
        Some(ArrivalEstimation::CurrentlyArrivingToStation)
    } else if estimation_type == 3 {
        Some(ArrivalEstimation::OnDetour)
    } else {
        None
    }
}

/// A raw arrival is usable when its minutes are not negative, its kind is 0
/// to 3, its route name is a route label and its garage flag is 0 or 1.
pub open spec fn raw_arrival_valid(a: RawArrivalData) -> bool {
    &&& estimation_of(a.estimation_type, a.eta_min) is Some
    &&& parse_label(a.route_name@) is Some
    &&& (a.depot == 0 || a.depot == 1)
}

/// The arrival a valid raw arrival denotes.
pub open spec fn arrival_matches_raw(a: ArrivalData, value: RawArrivalData) -> bool {
    &&& a.route_id@ == value.route_id@
    &&& a.vehicle_id@ == value.vehicle_id@
    &&& a.arrival_estimation == estimation_of(value.estimation_type, value.eta_min)->0
    &&& a.route@ == parse_label(value.route_name@)->0
    &&& a.trip_name == value.trip_name
    &&& a.heading_to_garage == (value.depot == 1)
}

impl ArrivalData {
    /// Interprets a raw arrival. The minutes, the kind, the route name and the
    /// garage flag are checked in that order, and the first that fails is the
    /// error.
    pub fn from_raw(value: RawArrivalData) -> (r: Result<Self, ArrivalParseError>)
        ensures
            r is Ok <==> raw_arrival_valid(value),
            r matches Ok(a) ==> arrival_matches_raw(a, value),
            value.eta_min < 0 ==> r == Err::<Self, ArrivalParseError>(
                ArrivalParseError::InvalidEta(value.eta_min),
            ),
            value.eta_min >= 0 && estimation_of(value.estimation_type, value.eta_min) is None ==> r
                == Err::<Self, ArrivalParseError>(
                ArrivalParseError::InvalidType(value.estimation_type),
            ),
            estimation_of(value.estimation_type, value.eta_min) is Some && parse_label(
                value.route_name@,
            ) is None ==> (r matches Err(ArrivalParseError::InvalidRouteName(name)) && name@
                == value.route_name@),
            estimation_of(value.estimation_type, value.eta_min) is Some && parse_label(
                value.route_name@,
            ) is Some && value.depot != 0 && value.depot != 1 ==> r == Err::<
                Self,
                ArrivalParseError,
            >(ArrivalParseError::InvalidDepot(value.depot)),
    {
        if value.eta_min < 0 {
            return Err(ArrivalParseError::InvalidEta(value.eta_min));
        }
        let eta_in_minutes = value.eta_min as u32;
        let arrival_estimation = match value.estimation_type {
            0 => ArrivalEstimation::LocationBased { eta_in_minutes },
            1 => ArrivalEstimation::TimetableBased { eta_in_minutes },
            2 => ArrivalEstimation::CurrentlyArrivingToStation,
            3 => ArrivalEstimation::OnDetour,
            unknown => {
                return Err(ArrivalParseError::InvalidType(unknown));
            },
        };
        let route = match BusRoute::from_route_name(value.route_name.as_str()) {
            Ok(route) => route,
            Err(error) => {
                return Err(ArrivalParseError::InvalidRouteName(error.route_name));
            },
        };
        let heading_to_garage = match value.depot {
            0 => false,
            1 => true,
            unknown => {
                return Err(ArrivalParseError::InvalidDepot(unknown));
            },
        };
        Ok(Self {
            route_id: RouteId::new(value.route_id),
            vehicle_id: VehicleId::new(value.vehicle_id),
            arrival_estimation,
            route,
            trip_name: value.trip_name,
            heading_to_garage,
        })
    }
}

/// A stop of a route as the arrivals endpoint lists it.
pub struct RawStationArrivalDetails {
    pub station_int_id: i32,
    pub name: String,
    pub station_code: String,
    pub order_no: i32,
    pub location: GeographicalLocation,
    pub arrivals: Vec<RawArrivalData>,
}

/// A stop of a route with the buses expected there.
#[derive(Debug)]
pub struct StationArrivalDetails {
    pub station_code: StationCode,
    pub internal_station_id: i32,
    pub name: String,
    pub stop_number: u32,
    pub location: GeographicalLocation,
    pub arrivals: Vec<ArrivalData>,
}

/// A raw stop is usable when its order number is not negative and every
/// arrival at it is usable.
pub open spec fn station_arrivals_valid(value: RawStationArrivalDetails) -> bool {
    value.order_no >= 0 && forall|i: int|
        0 <= i < value.arrivals@.len() ==> raw_arrival_valid(#[trigger] value.arrivals@[i])
}

/// The stop a valid raw stop denotes.
pub open spec fn station_arrivals_match_raw(s: StationArrivalDetails, value: RawStationArrivalDetails) -> bool {
    &&& s.station_code@ == value.station_code@
    &&& s.internal_station_id == value.station_int_id
    &&& s.name == value.name
    &&& s.stop_number == value.order_no
    &&& s.location == value.location
    &&& s.arrivals@.len() == value.arrivals@.len()
    &&& forall|i: int|
        0 <= i < value.arrivals@.len() ==> arrival_matches_raw(
            #[trigger] s.arrivals@[i],
            value.arrivals@[i],
        )
}

impl StationArrivalDetails {
    /// Interprets a raw stop and its arrivals; the order number must not be
    /// negative and every arrival must be valid.
    pub fn from_raw(value: RawStationArrivalDetails) -> (r: Result<Self, ArrivalParseError>)
        ensures
            value.order_no < 0 ==> r == Err::<Self, ArrivalParseError>(
                ArrivalParseError::InvalidOrderNumber(value.order_no),
            ),
            r is Ok <==> station_arrivals_valid(value),
            r matches Ok(s) ==> station_arrivals_match_raw(s, value),
    {
        if value.order_no < 0 {
            return Err(ArrivalParseError::InvalidOrderNumber(value.order_no));
        }
        let ghost orig = value.arrivals@;
        let mut rest = value.arrivals;
        let mut reversed: Vec<ArrivalData> = Vec::new();
        while rest.len() > 0
            invariant
                value.order_no >= 0,
                orig == value.arrivals@,
                rest@ == orig.subrange(0, rest@.len() as int),
                reversed@.len() + rest@.len() == orig.len(),
                forall|k: int| rest@.len() <= k < orig.len() ==> raw_arrival_valid(#[trigger] orig[k]),
                forall|k: int|
                    0 <= k < reversed@.len() ==> arrival_matches_raw(
                        #[trigger] reversed@[k],
                        orig[orig.len() - 1 - k],
                    ),
            decreases rest@.len(),
        {
            let ghost n = rest@.len();
            let item = rest.pop().unwrap();
            assert(item == orig[n - 1]);
            match ArrivalData::from_raw(item) {
                Ok(a) => reversed.push(a),
                Err(e) => {
                    assert(!raw_arrival_valid(orig[n - 1]));
                    return Err(e);
                },
            }
        }
        let mut arrivals: Vec<ArrivalData> = Vec::new();
        while reversed.len() > 0
            invariant
                arrivals@.len() + reversed@.len() == orig.len(),
                forall|k: int|
                    0 <= k < reversed@.len() ==> arrival_matches_raw(
                        #[trigger] reversed@[k],
                        orig[orig.len() - 1 - k],
                    ),
                forall|k: int| 0 <= k < arrivals@.len() ==> arrival_matches_raw(#[trigger] arrivals@[k], orig[k]),
            decreases reversed@.len(),
        {
            let a = reversed.pop().unwrap();
            arrivals.push(a);
        }
        Ok(Self {
            station_code: StationCode::new(value.station_code),
            internal_station_id: value.station_int_id,
            name: value.name,
            stop_number: value.order_no as u32,
            location: value.location,
            arrivals,
        })
    }
}

} // verus!
