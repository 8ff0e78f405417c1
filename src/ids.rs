//! Opaque identifiers of the remote API: never interpreted, only compared.

use vstd::prelude::*;

verus! {

/// The code of a station (the API's `ref_id`), used in requests about it.
#[derive(PartialEq, Eq, Debug, Hash)]
pub struct StationCode(String);

/// The code of a station as the arrival and route endpoints name it.
#[derive(PartialEq, Eq, Debug, Hash)]
pub struct BusStationCode(String);

/// The identifier of a route, shared by both directions of it.
#[derive(PartialEq, Eq, Debug, Hash)]
pub struct RouteId(String);

/// The identifier of a vehicle.
#[derive(PartialEq, Eq, Debug, Hash)]
pub struct VehicleId(String);

/// The identifier of one direction of a route.
#[derive(PartialEq, Eq, Debug, Hash)]
pub struct TripId(String);

impl View for StationCode {
    type V = Seq<char>;

    closed spec fn view(&self) -> Seq<char> {
        self.0@
    }
}

impl StationCode {
    #[inline]
    pub fn new(id: String) -> (r: Self)
        ensures
            r@ == id@,
    {
        Self(id)
    }

    pub fn as_str(&self) -> (r: &str)
        ensures
            r@ == self@,
    {
        self.0.as_str()
    }

    /// The code as text.
    pub fn to_string(&self) -> (r: String)
        ensures
            r@ == self@,
    {
        self.0.clone()
    }
}

impl Clone for StationCode {
    fn clone(&self) -> (r: Self)
        ensures
            r@ == self@,
    {
        Self(self.0.clone())
    }
}

impl View for BusStationCode {
    type V = Seq<char>;

    closed spec fn view(&self) -> Seq<char> {
        self.0@
    }
}

impl BusStationCode {
    #[inline]
    pub fn new(id: String) -> (r: Self)
        ensures
            r@ == id@,
    {
        Self(id)
    }

    pub fn as_str(&self) -> (r: &str)
        ensures
            r@ == self@,
    {
        self.0.as_str()
    }

    /// The code as text.
    pub fn to_string(&self) -> (r: String)
        ensures
            r@ == self@,
    {
        self.0.clone()
    }
}

impl Clone for BusStationCode {
    fn clone(&self) -> (r: Self)
        ensures
            r@ == self@,
    {
        Self(self.0.clone())
    }
}

impl View for RouteId {
    type V = Seq<char>;

    closed spec fn view(&self) -> Seq<char> {
        self.0@
    }
}

impl RouteId {
    #[inline]
    pub fn new(route_id: String) -> (r: Self)
        ensures
            r@ == route_id@,
    {
        Self(route_id)
    }

    pub fn as_str(&self) -> (r: &str)
        ensures
            r@ == self@,
    {
        self.0.as_str()
    }

    /// The identifier as text.
    pub fn to_string(&self) -> (r: String)
        ensures
            r@ == self@,
    {
        self.0.clone()
    }
}

impl Clone for RouteId {
    fn clone(&self) -> (r: Self)
        ensures
            r@ == self@,
    {
        Self(self.0.clone())
    }
}

impl View for VehicleId {
    type V = Seq<char>;

    closed spec fn view(&self) -> Seq<char> {
        self.0@
    }
}

impl VehicleId {
    #[inline]
    pub fn new(vehicle_id: String) -> (r: Self)
        ensures
            r@ == vehicle_id@,
    {
        Self(vehicle_id)
    }

    pub fn as_str(&self) -> (r: &str)
        ensures
            r@ == self@,
    {
        self.0.as_str()
    }
}

impl Clone for VehicleId {
    fn clone(&self) -> (r: Self)
        ensures
            r@ == self@,
    {
        Self(self.0.clone())
    }
}

impl View for TripId {
    type V = Seq<char>;

    closed spec fn view(&self) -> Seq<char> {
        self.0@
    }
}

impl TripId {
    #[inline]
    pub fn new(trip_id: String) -> (r: Self)
        ensures
            r@ == trip_id@,
    {
        Self(trip_id)
    }

    pub fn as_str(&self) -> (r: &str)
        ensures
            r@ == self@,
    {
        self.0.as_str()
    }
}

impl Clone for TripId {
    fn clone(&self) -> (r: Self)
        ensures
            r@ == self@,
    {
        Self(self.0.clone())
    }
}

} // verus!
