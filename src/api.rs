//! The records the remote API returns about stations, trips and routes, and
//! how their raw forms are interpreted.

use vstd::prelude::*;

use crate::errors::RouteNameParseError;
use crate::ids::{BusStationCode, RouteId, StationCode, TripId};
use crate::route::{parse_label, BusRoute, RouteLabel};

verus! {

/// A position on the Earth. The coordinates are carried, never computed with,
/// so they are held as the bit patterns of their `f64` values.
#[derive(Clone, Copy, PartialEq, Eq, Debug, Structural)]
pub struct GeographicalLocation {
    pub latitude_bits: u64,
    pub longitude_bits: u64,
}

impl GeographicalLocation {
    pub fn from_bits(latitude_bits: u64, longitude_bits: u64) -> (r: Self)
        ensures
            r.latitude_bits == latitude_bits,
            r.longitude_bits == longitude_bits,
    {
        Self { latitude_bits, longitude_bits }
    }
}

/// A trip as the routes-on-station endpoint lists it.
pub struct RawRouteOnStation {
    pub route_id: String,
    pub trip_id: String,
    pub route_number: String,
    pub route_name: Option<String>,
    pub route_group_name: String,
    pub is_garage: bool,
}

/// A trip (one direction of a route) that stops at a station.
#[derive(Debug)]
pub struct TripOnStation {
    pub route_id: RouteId,
    pub trip_id: TripId,
    pub route: BusRoute,
    pub short_trip_name: Option<String>,
    pub trip_name: String,
    pub ends_in_garage: bool,
}

/// The trip a raw trip with a valid route number denotes.
pub open spec fn trip_matches_raw(t: TripOnStation, value: RawRouteOnStation) -> bool {
    &&& t.route@ == parse_label(value.route_number@)->0
    &&& t.route_id@ == value.route_id@
    &&& t.trip_id@ == value.trip_id@
    &&& t.short_trip_name == value.route_name
    &&& t.trip_name == value.route_group_name
    &&& t.ends_in_garage == value.is_garage
}

impl TripOnStation {
    /// Interprets a raw trip; it fails when its route number is not a route label.
    pub fn from_raw(value: RawRouteOnStation) -> (r: Result<Self, RouteNameParseError>)
        ensures
            r is Ok <==> parse_label(value.route_number@) is Some,
            r matches Ok(t) ==> trip_matches_raw(t, value),
    {
        let route = BusRoute::from_route_name(value.route_number.as_str())?;
        Ok(Self {
            route_id: RouteId::new(value.route_id),
            trip_id: TripId::new(value.trip_id),
            route,
            short_trip_name: value.route_name,
            trip_name: value.route_group_name,
            ends_in_garage: value.is_garage,
        })
    }
}

/// A station as the station-details endpoint lists it.
pub struct RawStationDetails {
    pub station_int_id: i32,
    pub location: GeographicalLocation,
    pub name: String,
    pub station_code: String,
    pub routes_on_station: Vec<String>,
}

/// A station, with the routes that stop there.
#[derive(Debug)]
pub struct StationDetails {
    pub station_code: StationCode,
    pub internal_station_id: i32,
    pub location: GeographicalLocation,
    pub name: String,
    pub routes_on_station: Vec<BusRoute>,
}

pub open spec fn routes_valid(value: RawStationDetails) -> bool {
    forall|i: int|
        0 <= i < value.routes_on_station@.len() ==> parse_label(
            #[trigger] value.routes_on_station@[i]@,
        ) is Some
}

/// The station a raw station with valid routes denotes.
pub open spec fn station_matches_raw(s: StationDetails, value: RawStationDetails) -> bool {
    &&& s.station_code@ == value.station_code@
    &&& s.internal_station_id == value.station_int_id
    &&& s.location == value.location
    &&& s.name == value.name
    &&& s.routes_on_station@.len() == value.routes_on_station@.len()
    &&& forall|i: int|
        0 <= i < value.routes_on_station@.len() ==> parse_label(
            #[trigger] value.routes_on_station@[i]@,
        ) == Some(s.routes_on_station@[i]@)
}

impl StationDetails {
    /// Interprets a raw station; it fails when one of its routes is not a route label.
    pub fn from_raw(value: RawStationDetails) -> (r: Result<Self, RouteNameParseError>)
        ensures
            r is Ok <==> routes_valid(value),
            r matches Ok(s) ==> station_matches_raw(s, value),
    {
        let mut routes_on_station: Vec<BusRoute> = Vec::new();
        let mut i: usize = 0;
        while i < value.routes_on_station.len()
            invariant
                i <= value.routes_on_station@.len(),
                routes_on_station@.len() == i,
                forall|k: int|
                    0 <= k < i ==> parse_label(#[trigger] value.routes_on_station@[k]@) == Some(
                        routes_on_station@[k]@,
                    ),
            decreases value.routes_on_station@.len() - i,
        {
            let route = BusRoute::from_route_name(value.routes_on_station[i].as_str())?;
            routes_on_station.push(route);
            i = i + 1;
        }
        Ok(Self {
            station_code: StationCode::new(value.station_code),
            internal_station_id: value.station_int_id,
            location: value.location,
            name: value.name,
            routes_on_station,
        })
    }
}

/// A stop as the stations-on-route endpoint lists it.
pub struct RawStationOnRoute {
    pub station_int_id: i32,
    pub station_code: String,
    pub name: String,
    pub order_no: i32,
    pub location: GeographicalLocation,
}

/// A stop along a route.
#[derive(Debug)]
pub struct StationOnRoute {
    pub station_code: BusStationCode,
    pub internal_station_id: i32,
    pub name: String,
    pub location: GeographicalLocation,
    pub stop_number: i32,
}

/// The stop a raw stop denotes.
pub open spec fn stop_matches_raw(r: StationOnRoute, value: RawStationOnRoute) -> bool {
    &&& r.station_code@ == value.station_code@
    &&& r.internal_station_id == value.station_int_id
    &&& r.name == value.name
    &&& r.location == value.location
    &&& r.stop_number == value.order_no
}

impl StationOnRoute {
    pub fn from_raw(value: RawStationOnRoute) -> (r: Self)
        ensures
            stop_matches_raw(r, value),
    {
        Self {
            station_code: BusStationCode::new(value.station_code),
            internal_station_id: value.station_int_id,
            name: value.name,
            location: value.location,
            stop_number: value.order_no,
        }
    }
}

/// A route as the routes endpoint lists it.
pub struct RawRouteDetails {
    pub route_id: String,
    pub trip_id: String,
    pub trip_int_id: i32,
    pub route_number: String,
    pub route_name: String,
    pub short_route_name: String,
}

/// One direction of a route.
#[derive(Debug)]
pub struct RouteDetails {
    pub route_id: RouteId,
    pub trip_id: TripId,
    pub internal_trip_id: i32,
    pub route: BusRoute,
    pub name: String,
    pub short_name: String,
}

/// The route a raw route with a valid route number denotes.
pub open spec fn route_matches_raw(d: RouteDetails, value: RawRouteDetails) -> bool {
    &&& d.route@ == parse_label(value.route_number@)->0
    &&& d.route_id@ == value.route_id@
    &&& d.trip_id@ == value.trip_id@
    &&& d.internal_trip_id == value.trip_int_id
    &&& d.name == value.route_name
    &&& d.short_name == value.short_route_name
}

impl RouteDetails {
    /// Interprets a raw route; it fails when its route number is not a route label.
    pub fn from_raw(value: RawRouteDetails) -> (r: Result<Self, RouteNameParseError>)
        ensures
            r is Ok <==> parse_label(value.route_number@) is Some,
            r matches Ok(d) ==> route_matches_raw(d, value),
    {
        let route = BusRoute::from_route_name(value.route_number.as_str())?;
        Ok(Self {
            route_id: RouteId::new(value.route_id),
            trip_id: TripId::new(value.trip_id),
            internal_trip_id: value.trip_int_id,
            route,
            name: value.route_name,
            short_name: value.short_route_name,
        })
    }
}

} // verus!
