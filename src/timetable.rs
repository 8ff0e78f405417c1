//! Timetables: what the timetable endpoint returns for one station, and how
//! its raw records are interpreted.

use vstd::prelude::*;

use crate::errors::RouteTimetableParseError;
use crate::route::{opt_view, BaseBusRoute, BusRoute, RouteLabel};
use crate::text::{message_with_number, message_with_text, parse_u32, parse_u32_spec};

verus! {

/// One hour of a raw timetable: the minutes of that hour at which a bus arrives.
pub struct RawTimetableRouteTimetableEntry {
    pub hour: i32,
    pub minutes: Vec<i32>,
    pub is_current: bool,
    pub timestamp: String,
}

/// A stop as the raw timetable lists it.
pub struct RawStationOnTimetable {
    pub ref_id: String,
    pub name: String,
    pub order_no: i32,
}

/// The raw timetable of one trip at one station.
pub struct RawTripTimetable {
    pub timetable: Vec<RawTimetableRouteTimetableEntry>,
    pub stations: Vec<RawStationOnTimetable>,
    pub name: String,
    pub parent_name: String,
    pub group_name: String,
    pub route_number_prefix: String,
    pub route_number_suffix: String,
    pub is_garage: bool,
}

/// The raw timetables of one route group at one station.
pub struct RawTimetableRouteGroupsData {
    pub route_group_number: String,
    pub routes: Vec<RawTripTimetable>,
}

/// A scheduled arrival, at `hour:minute` with `1 <= hour <= 24` and
/// `minute <= 59`.
#[derive(Clone, Copy, PartialEq, Eq, Debug, Structural)]
pub struct TimetableEntry {
    pub hour: u8,
    pub minute: u8,
}

impl TimetableEntry {
    pub open spec fn wf(&self) -> bool {
        1 <= self.hour <= 24 && self.minute <= 59
    }

    pub fn new(hour: u8, minute: u8) -> (r: Result<Self, RouteTimetableParseError>)
        ensures
            r is Ok <==> 1 <= hour <= 24 && minute <= 59,
            r matches Ok(e) ==> e.hour == hour && e.minute == minute && e.wf(),
    {
        if hour < 1 {
            return Err(RouteTimetableParseError::new("hour value is smaller than 1!".to_owned()));
        }
        if hour > 24 {
            return Err(RouteTimetableParseError::new("hour value is larger than 24!".to_owned()));
        }
        if minute > 59 {
            return Err(
                RouteTimetableParseError::new("minute value is larger than 59!".to_owned()),
            );
        }
        Ok(Self { hour, minute })
    }
}

/// A stop of a trip as the timetable lists it.
#[derive(PartialEq, Eq, Debug)]
pub struct StationOnTimetable {
    pub station_code: String,
    pub name: String,
    pub stop_number: u32,
}

impl Clone for StationOnTimetable {
    fn clone(&self) -> (r: Self)
        ensures
            r == *self,
    {
        StationOnTimetable {
            station_code: self.station_code.clone(),
            name: self.name.clone(),
            stop_number: self.stop_number,
        }
    }
}

pub open spec fn raw_station_valid(raw: RawStationOnTimetable) -> bool {
    raw.order_no >= 0
}

pub open spec fn station_of_raw(raw: RawStationOnTimetable) -> StationOnTimetable {
    StationOnTimetable { station_code: raw.ref_id, name: raw.name, stop_number: raw.order_no as u32 }
}

impl StationOnTimetable {
    /// Interprets a raw stop; its stop number must not be negative.
    pub fn from_raw(value: &RawStationOnTimetable) -> (r: Result<Self, RouteTimetableParseError>)
        ensures
            r is Ok <==> raw_station_valid(*value),
            r matches Ok(s) ==> s == station_of_raw(*value),
    {
        if value.order_no < 0 {
            return Err(
                RouteTimetableParseError::new(
                    message_with_number("order_no value can not fit into u32: ", value.order_no),
                ),
            );
        }
        Ok(Self {
            station_code: value.ref_id.clone(),
            name: value.name.clone(),
            stop_number: value.order_no as u32,
        })
    }
}

/// The timetable of one trip (one direction of a route) at one station.
#[derive(Debug)]
pub struct TripTimetable {
    pub route: BusRoute,
    pub trip_name: String,
    pub short_trip_name: String,
    pub ends_in_garage: bool,
    pub timetable: Vec<TimetableEntry>,
    pub stations: Vec<StationOnTimetable>,
}

pub struct TripTimetableModel {
    pub route: RouteLabel,
    pub trip_name: Seq<char>,
    pub short_trip_name: Seq<char>,
    pub ends_in_garage: bool,
    pub timetable: Seq<TimetableEntry>,
    pub stations: Seq<StationOnTimetable>,
}

impl View for TripTimetable {
    type V = TripTimetableModel;

    open spec fn view(&self) -> TripTimetableModel {
        TripTimetableModel {
            route: self.route@,
            trip_name: self.trip_name@,
            short_trip_name: self.short_trip_name@,
            ends_in_garage: self.ends_in_garage,
            timetable: self.timetable@,
            stations: self.stations@,
        }
    }
}

impl Clone for TripTimetable {
    fn clone(&self) -> (r: Self)
        ensures
            r@ == self@,
    {
        let timetable = self.timetable.clone();
        let stations = self.stations.clone();
        assert(timetable@ =~= self.timetable@);
        assert(stations@ =~= self.stations@);
        TripTimetable {
            route: self.route.clone(),
            trip_name: self.trip_name.clone(),
            short_trip_name: self.short_trip_name.clone(),
            ends_in_garage: self.ends_in_garage,
            timetable,
            stations,
        }
    }
}

/// A raw hour is usable when it fits in a byte, and, if any bus arrives in
/// it, lies in `1..=24` with every minute in `0..=59`.
pub open spec fn raw_entry_valid(e: RawTimetableRouteTimetableEntry) -> bool {
    &&& 0 <= e.hour <= 255
    &&& e.minutes@.len() > 0 ==> 1 <= e.hour <= 24
    &&& forall|j: int| 0 <= j < e.minutes@.len() ==> 0 <= #[trigger] e.minutes@[j] <= 59
}

pub open spec fn raw_entries_valid(es: Seq<RawTimetableRouteTimetableEntry>) -> bool {
    forall|i: int| 0 <= i < es.len() ==> raw_entry_valid(#[trigger] es[i])
}

pub open spec fn arrivals_of(e: RawTimetableRouteTimetableEntry) -> Seq<TimetableEntry> {
    e.minutes@.map_values(|m: i32| TimetableEntry { hour: e.hour as u8, minute: m as u8 })
}

/// The arrivals of raw hours, hour by hour, minute by minute.
pub open spec fn entries_of(es: Seq<RawTimetableRouteTimetableEntry>) -> Seq<TimetableEntry>
    decreases es.len(),
{
    if es.len() == 0 {
        Seq::empty()
    } else {
        entries_of(es.drop_last()) + arrivals_of(es.last())
    }
}

/// Empty text stands for an absent prefix or suffix.
pub open spec fn nonempty_text(s: Seq<char>) -> Option<Seq<char>> {
    if s.len() == 0 {
        None
    } else {
        Some(s)
    }
}

pub open spec fn raw_trip_valid(value: RawTripTimetable) -> bool {
    &&& raw_entries_valid(value.timetable@)
    &&& parse_u32_spec(value.group_name@) is Some
    &&& forall|i: int| 0 <= i < value.stations@.len() ==> raw_station_valid(#[trigger] value.stations@[i])
}

/// The timetable a valid raw trip timetable denotes.
pub open spec fn trip_model_of_raw(value: RawTripTimetable) -> TripTimetableModel {
    TripTimetableModel {
        route: RouteLabel {
            prefix: nonempty_text(value.route_number_prefix@),
            number: parse_u32_spec(value.group_name@)->0,
            suffix: nonempty_text(value.route_number_suffix@),
            additional_info: None,
        },
        trip_name: value.parent_name@,
        short_trip_name: value.name@,
        ends_in_garage: value.is_garage,
        timetable: entries_of(value.timetable@),
        stations: value.stations@.map_values(|s: RawStationOnTimetable| station_of_raw(s)),
    }
}

fn nonempty_string(s: String) -> (r: Option<String>)
    ensures
        opt_view(r) == nonempty_text(s@),
{
    if s.unicode_len() == 0 {
        None
    } else {
        Some(s)
    }
}

/// Reads the arrivals of raw hours.
fn entries_from_raw(raw: &Vec<RawTimetableRouteTimetableEntry>) -> (r: Result<
    Vec<TimetableEntry>,
    RouteTimetableParseError,
>)
    ensures
        r is Ok <==> raw_entries_valid(raw@),
        r matches Ok(v) ==> v@ == entries_of(raw@),
{
    let mut out: Vec<TimetableEntry> = Vec::new();
    let mut i: usize = 0;
    while i < raw.len()
        invariant
            i <= raw@.len(),
            raw_entries_valid(raw@.subrange(0, i as int)),
            out@ == entries_of(raw@.subrange(0, i as int)),
        decreases raw@.len() - i,
    {
        let e = &raw[i];
        if e.hour < 0 || e.hour > 255 {
            proof {
                assert(!raw_entry_valid(raw@[i as int]));
            }
            return Err(
                RouteTimetableParseError::new(
                    message_with_number("hour value can not fit into u8: ", e.hour),
                ),
            );
        }
        let hour = e.hour as u8;
        let ghost before = out@;
        let mut j: usize = 0;
        while j < e.minutes.len()
            invariant
                i < raw@.len(),
                *e == raw@[i as int],
                raw_entries_valid(raw@.subrange(0, i as int)),
                before == entries_of(raw@.subrange(0, i as int)),
                0 <= e.hour <= 255,
                hour == e.hour as u8,
                j <= e.minutes@.len(),
                j > 0 ==> 1 <= e.hour <= 24,
                forall|k: int| 0 <= k < j ==> 0 <= #[trigger] e.minutes@[k] <= 59,
                out@ == before + arrivals_of(*e).subrange(0, j as int),
            decreases e.minutes@.len() - j,
        {
            let m = e.minutes[j];
            if m < 0 || m > 255 {
                proof {
                    assert(!raw_entry_valid(raw@[i as int]));
                }
                return Err(
                    RouteTimetableParseError::new(
                        message_with_number("minute value can not fit into u8: ", m),
                    ),
                );
            }
            let arrival = match TimetableEntry::new(hour, m as u8) {
                Ok(a) => a,
                Err(err) => {
                    proof {
                        assert(!raw_entry_valid(raw@[i as int]));
                    }
                    return Err(err);
                },
            };
            out.push(arrival);
            proof {
                assert(arrivals_of(*e).subrange(0, j + 1) =~= arrivals_of(*e).subrange(
                    0,
                    j as int,
                ).push(arrival));
            }
            j = j + 1;
        }
        proof {
            let next = raw@.subrange(0, i + 1);
            assert(next.drop_last() =~= raw@.subrange(0, i as int));
            assert(arrivals_of(*e).subrange(0, j as int) =~= arrivals_of(*e));
            assert(j == e.minutes@.len());
            assert(raw_entry_valid(*e));
            assert forall|k: int| 0 <= k < next.len() implies raw_entry_valid(#[trigger] next[k]) by {
                if k < i {
                    assert(next[k] == raw@.subrange(0, i as int)[k]);
                }
            }
        }
        i = i + 1;
    }
    assert(raw@.subrange(0, i as int) =~= raw@);
    Ok(out)
}

impl TripTimetable {
    /// Interprets the raw timetable of one trip. It fails when an hour or a
    /// minute is out of range, when the group name is not a bare number, or
    /// when a stop number is negative.
    pub fn from_raw(value: RawTripTimetable) -> (r: Result<Self, RouteTimetableParseError>)
        ensures
            r is Ok <==> raw_trip_valid(value),
            r matches Ok(t) ==> t@ == trip_model_of_raw(value),
    {
        let timetable_entries = entries_from_raw(&value.timetable)?;
        let group_number = match parse_u32(value.group_name.as_str()) {
            Some(n) => n,
            None => {
                return Err(
                    RouteTimetableParseError::new(
                        message_with_text(
                            "group_name can not fit into u32 (maybe it has a prefix/suffix and is not a group): ",
                            value.group_name.as_str(),
                        ),
                    ),
                );
            },
        };
        let mut stations: Vec<StationOnTimetable> = Vec::new();
        let mut i: usize = 0;
        while i < value.stations.len()
            invariant
                i <= value.stations@.len(),
                forall|k: int| 0 <= k < i ==> raw_station_valid(#[trigger] value.stations@[k]),
                stations@ == value.stations@.subrange(0, i as int).map_values(
                    |s: RawStationOnTimetable| station_of_raw(s),
                ),
            decreases value.stations@.len() - i,
        {
            let station = StationOnTimetable::from_raw(&value.stations[i])?;
            stations.push(station);
            proof {
                assert(value.stations@.subrange(0, i + 1).map_values(
                    |s: RawStationOnTimetable| station_of_raw(s),
                ) =~= value.stations@.subrange(0, i as int).map_values(
                    |s: RawStationOnTimetable| station_of_raw(s),
                ).push(station_of_raw(value.stations@[i as int])));
            }
            i = i + 1;
        }
        assert(value.stations@.subrange(0, i as int) =~= value.stations@);
        let route = BusRoute::from_components(
            nonempty_string(value.route_number_prefix),
            group_number,
            nonempty_string(value.route_number_suffix),
            None,
        );
        let t = Self {
            route,
            trip_name: value.parent_name,
            short_trip_name: value.name,
            ends_in_garage: value.is_garage,
            timetable: timetable_entries,
            stations,
        };
        assert(t@.route == trip_model_of_raw(value).route);
        Ok(t)
    }
}

/// The timetables of one route group (e.g. `3`) at one station, one per trip
/// of the group's routes (e.g. `3G`, `N3B`).
#[derive(Debug)]
pub struct RouteGroupTimetable {
    pub route_group_name: BaseBusRoute,
    pub trip_timetables: Vec<TripTimetable>,
}

pub open spec fn raw_group_valid(value: RawTimetableRouteGroupsData) -> bool {
    &&& parse_u32_spec(value.route_group_number@) is Some
    &&& forall|i: int| 0 <= i < value.routes@.len() ==> raw_trip_valid(#[trigger] value.routes@[i])
}

/// The route group timetable a valid raw one denotes.
pub open spec fn group_matches_raw(g: RouteGroupTimetable, value: RawTimetableRouteGroupsData) -> bool {
    &&& g.route_group_name.number() == parse_u32_spec(value.route_group_number@)->0
    &&& g.trip_timetables@.len() == value.routes@.len()
    &&& forall|i: int|
        0 <= i < value.routes@.len() ==> (#[trigger] g.trip_timetables@[i])@ == trip_model_of_raw(
            value.routes@[i],
        )
}

impl RouteGroupTimetable {
    /// Interprets the raw timetables of one route group; it fails when one trip
    /// timetable does, or when the group number is not a bare number.
    pub fn from_raw(value: RawTimetableRouteGroupsData) -> (r: Result<Self, RouteTimetableParseError>)
        ensures
            r is Ok <==> raw_group_valid(value),
            r matches Ok(g) ==> group_matches_raw(g, value),
    {
        let ghost raw_routes = value.routes@;
        let mut raw = value.routes;
        let mut reversed: Vec<TripTimetable> = Vec::new();
        // Converted from the back, so that taking each raw trip off the end is cheap.
        while raw.len() > 0
            invariant
                raw_routes == value.routes@,
                raw@ == raw_routes.subrange(0, raw@.len() as int),
                reversed@.len() + raw@.len() == raw_routes.len(),
                forall|k: int|
                    0 <= k < reversed@.len() ==> (#[trigger] reversed@[k])@ == trip_model_of_raw(
                        raw_routes[raw_routes.len() - 1 - k],
                    ),
                forall|k: int|
                    raw@.len() <= k < raw_routes.len() ==> raw_trip_valid(#[trigger] raw_routes[k]),
            decreases raw@.len(),
        {
            let ghost n = raw@.len();
            let item = raw.pop().unwrap();
            assert(item == raw_routes[n - 1]);
            let t = match TripTimetable::from_raw(item) {
                Ok(t) => t,
                Err(err) => {
                    assert(!raw_trip_valid(raw_routes[n - 1]));
                    return Err(err);
                },
            };
            reversed.push(t);
        }
        assert(raw_routes == value.routes@);
        let mut trip_timetables: Vec<TripTimetable> = Vec::new();
        while reversed.len() > 0
            invariant
                trip_timetables@.len() + reversed@.len() == raw_routes.len(),
                forall|k: int|
                    0 <= k < reversed@.len() ==> (#[trigger] reversed@[k])@ == trip_model_of_raw(
                        raw_routes[raw_routes.len() - 1 - k],
                    ),
                forall|k: int|
                    0 <= k < trip_timetables@.len() ==> (#[trigger] trip_timetables@[k])@
                        == trip_model_of_raw(raw_routes[k]),
            decreases reversed@.len(),
        {
            let t = reversed.pop().unwrap();
            trip_timetables.push(t);
        }
        let route_group_name = match parse_u32(value.route_group_number.as_str()) {
            Some(n) => BaseBusRoute::new_from_number(n),
            None => {
                return Err(
                    RouteTimetableParseError::new(
                        message_with_text(
                            "Invalid bus route name: ",
                            value.route_group_number.as_str(),
                        ),
                    ),
                );
            },
        };
        Ok(Self { route_group_name, trip_timetables })
    }
}

/// How many hours around now a timetable request covers.
#[derive(Clone, Copy, PartialEq, Eq, Debug, Structural)]
pub enum TimetableFetchMode {
    /// The whole local day, from midnight to midnight.
    FullDay,
    /// `previous_hours` before now and `next_hours` after it.
    Manual { next_hours: u32, previous_hours: u32 },
}

} // verus!
