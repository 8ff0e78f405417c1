//! What each endpoint is asked: the path under the API's base URL and the
//! query parameters, in order.

use chrono::Timelike;
use vstd::prelude::*;

use crate::ids::{StationCode, TripId};
use crate::route::BaseBusRoute;
use crate::text::{decimal, decimal_string};
use crate::timetable::TimetableFetchMode;

verus! {

/// A request to one endpoint.
pub struct ApiRequest {
    /// The path, relative to the API's base URL.
    pub path: String,
    /// The query parameters, in order.
    pub query: Vec<(String, String)>,
}

pub open spec fn pair_views(q: Seq<(String, String)>) -> Seq<(Seq<char>, Seq<char>)> {
    q.map_values(|p: (String, String)| (p.0@, p.1@))
}

fn pair(key: &str, value: String) -> (r: (String, String))
    ensures
        r.0@ == key@,
        r.1@ == value@,
{
    (key.to_owned(), value)
}

/// Relies on chrono's `Local::now` and `Timelike::hour`: the hour of the
/// local clock now, from 0 to 23.
#[verifier::external_body]
fn current_local_hour() -> (r: u32)
    ensures
        r < 24,
{
    chrono::Local::now().hour()
}

/// The request for every station, with their routes split into sub-routes.
pub fn station_details_request() -> (r: ApiRequest)
    ensures
        r.path@ == "station-details"@,
        pair_views(r.query@) == seq![("show-subroutes"@, "1"@)],
{
    let query = vec![pair("show-subroutes", "1".to_owned())];
    let r = ApiRequest { path: "station-details".to_owned(), query };
    assert(pair_views(r.query@) =~= seq![("show-subroutes"@, "1"@)]);
    r
}

/// The request for the trips that stop at a station.
pub fn routes_on_station_request(station_code: &StationCode) -> (r: ApiRequest)
    ensures
        r.path@ == "station/routes-on-station"@,
        pair_views(r.query@) == seq![("station-code"@, station_code@)],
{
    let query = vec![pair("station-code", station_code.to_string())];
    let r = ApiRequest { path: "station/routes-on-station".to_owned(), query };
    assert(pair_views(r.query@) =~= seq![("station-code"@, station_code@)]);
    r
}

/// The request for the stops of one trip.
pub fn stations_on_route_request(trip_id: &TripId) -> (r: ApiRequest)
    ensures
        r.path@ == "route/stations-on-route"@,
        pair_views(r.query@) == seq![("trip-id"@, trip_id@)],
{
    let query = vec![pair("trip-id", trip_id.as_str().to_owned())];
    let r = ApiRequest { path: "route/stations-on-route".to_owned(), query };
    assert(pair_views(r.query@) =~= seq![("trip-id"@, trip_id@)]);
    r
}

/// The request for the expected arrivals along one trip.
pub fn arrivals_on_route_request(trip_id: &str) -> (r: ApiRequest)
    ensures
        r.path@ == "route/arrivals-on-route"@,
        pair_views(r.query@) == seq![("trip-id"@, trip_id@)],
{
    let query = vec![pair("trip-id", trip_id.to_owned())];
    let r = ApiRequest { path: "route/arrivals-on-route".to_owned(), query };
    assert(pair_views(r.query@) =~= seq![("trip-id"@, trip_id@)]);
    r
}

/// The request for every route.
pub fn all_routes_request() -> (r: ApiRequest)
    ensures
        r.path@ == "route/routes"@,
        r.query@.len() == 0,
{
    ApiRequest { path: "route/routes".to_owned(), query: Vec::new() }
}

/// The request for one route with its shape.
pub fn single_route_with_shape_request(route_id: &str) -> (r: ApiRequest)
    ensures
        r.path@ == "route/routes"@,
        pair_views(r.query@) == seq![("route-id"@, route_id@), ("shape"@, "1"@)],
{
    let query = vec![pair("route-id", route_id.to_owned()), pair("shape", "1".to_owned())];
    let r = ApiRequest { path: "route/routes".to_owned(), query };
    assert(pair_views(r.query@) =~= seq![("route-id"@, route_id@), ("shape"@, "1"@)]);
    r
}

/// The hours after and before now that a request covers, as
/// `(next_hours, previous_hours)`: for the full day, back to the last local
/// midnight and on to the next one.
pub open spec fn fetch_hours_spec(mode: TimetableFetchMode, current_hour: u32) -> (u32, u32) {
    match mode {
        TimetableFetchMode::FullDay => (
            if current_hour <= 24 { (24 - current_hour) as u32 } else { 0 },
            current_hour,
        ),
        TimetableFetchMode::Manual { next_hours, previous_hours } => (next_hours, previous_hours),
    }
}

pub fn fetch_hours(mode: TimetableFetchMode, current_hour: u32) -> (r: (u32, u32))
    ensures
        r == fetch_hours_spec(mode, current_hour),
{
    match mode {
        TimetableFetchMode::FullDay => (24u32.saturating_sub(current_hour), current_hour),
        TimetableFetchMode::Manual { next_hours, previous_hours } => (next_hours, previous_hours),
    }
}

/// The query of a timetable request: the station, the hours, then one
/// parameter per route group.
pub open spec fn timetable_query_spec(
    station_code: Seq<char>,
    route_groups: Seq<BaseBusRoute>,
    hours: (u32, u32),
) -> Seq<(Seq<char>, Seq<char>)> {
    seq![
        ("station-code"@, station_code),
        ("next-hours"@, decimal(hours.0 as nat)),
        ("previous-hours"@, decimal(hours.1 as nat)),
    ] + route_groups.map_values(|g: BaseBusRoute| ("route-group-number"@, decimal(g.number() as nat)))
}

/// The timetable request for a station's route groups, with the hours taken
/// at local hour `current_hour`.
pub fn timetable_request_at(
    station_code: &StationCode,
    route_groups: &Vec<BaseBusRoute>,
    mode: TimetableFetchMode,
    current_hour: u32,
) -> (r: ApiRequest)
    ensures
        r.path@ == "station/timetable"@,
        pair_views(r.query@) == timetable_query_spec(
            station_code@,
            route_groups@,
            fetch_hours_spec(mode, current_hour),
        ),
{
    let (next_hours, previous_hours) = fetch_hours(mode, current_hour);
    let mut query: Vec<(String, String)> = Vec::new();
    query.push(pair("station-code", station_code.to_string()));
    query.push(pair("next-hours", decimal_string(next_hours)));
    query.push(pair("previous-hours", decimal_string(previous_hours)));
    let ghost head = seq![
        ("station-code"@, station_code@),
        ("next-hours"@, decimal(next_hours as nat)),
        ("previous-hours"@, decimal(previous_hours as nat)),
    ];
    assert(pair_views(query@) =~= head);
    let mut i: usize = 0;
    while i < route_groups.len()
        invariant
            i <= route_groups@.len(),
            pair_views(query@) == head + route_groups@.subrange(0, i as int).map_values(
                |g: BaseBusRoute| ("route-group-number"@, decimal(g.number() as nat)),
            ),
        decreases route_groups@.len() - i,
    {
        let group = route_groups[i];
        let ghost before = query@;
        let item = pair("route-group-number", group.to_string());
        query.push(item);
        proof {
            assert(pair_views(query@) =~= pair_views(before).push((item.0@, item.1@)));
            assert(route_groups@.subrange(0, i + 1).map_values(
                |g: BaseBusRoute| ("route-group-number"@, decimal(g.number() as nat)),
            ) =~= route_groups@.subrange(0, i as int).map_values(
                |g: BaseBusRoute| ("route-group-number"@, decimal(g.number() as nat)),
            ).push(("route-group-number"@, decimal(group.number() as nat))));
            assert(pair_views(query@) =~= head + route_groups@.subrange(0, i + 1).map_values(
                |g: BaseBusRoute| ("route-group-number"@, decimal(g.number() as nat)),
            ));
        }
        i = i + 1;
    }
    assert(route_groups@.subrange(0, i as int) =~= route_groups@);
    ApiRequest { path: "station/timetable".to_owned(), query }
}

/// The timetable request for a station's route groups, with the hours taken
/// now.
pub fn timetable_request(
    station_code: &StationCode,
    route_groups: &Vec<BaseBusRoute>,
    mode: TimetableFetchMode,
) -> (r: ApiRequest)
    ensures
        r.path@ == "station/timetable"@,
        exists|hour: u32|
            hour < 24 && pair_views(r.query@) == timetable_query_spec(
                station_code@,
                route_groups@,
                fetch_hours_spec(mode, hour),
            ),
{
    let hour = current_local_hour();
    timetable_request_at(station_code, route_groups, mode, hour)
}

} // verus!
