use lpp_recorder::api::{
    GeographicalLocation, RouteDetails, StationDetails, StationOnRoute, TripOnStation,
};
use lpp_recorder::ids::{BusStationCode, RouteId, StationCode, TripId};
use lpp_recorder::route::{BaseBusRoute, BusRoute};
use lpp_recorder::snapshot::{
    join_route_stations, route_groups_of, CycleAction, CycleEvent, ReconciliationIndex,
    SnapshotCycle,
};
use lpp_recorder::storage::CaptureTime;
use lpp_recorder::timetable::{RouteGroupTimetable, TimetableEntry, TripTimetable};

fn location() -> GeographicalLocation {
    GeographicalLocation::from_bits(0, 0)
}

fn station(code: &str) -> StationDetails {
    StationDetails {
        station_code: StationCode::new(code.to_string()),
        internal_station_id: 1,
        location: location(),
        name: format!("Station {code}"),
        routes_on_station: vec![],
    }
}

fn trip(route: &str) -> TripOnStation {
    TripOnStation {
        route_id: RouteId::new(format!("route-{route}")),
        trip_id: TripId::new(format!("trip-{route}")),
        route: BusRoute::from_route_name(route).unwrap(),
        short_trip_name: None,
        trip_name: format!("Trip {route}"),
        ends_in_garage: false,
    }
}

fn trip_timetable(route: &str, minute: u8) -> TripTimetable {
    TripTimetable {
        route: BusRoute::from_route_name(route).unwrap(),
        trip_name: format!("Trip {route}"),
        short_trip_name: "END".to_string(),
        ends_in_garage: false,
        timetable: vec![TimetableEntry::new(5, minute).unwrap()],
        stations: vec![],
    }
}

fn group(number: u32, trips: Vec<TripTimetable>) -> RouteGroupTimetable {
    RouteGroupTimetable {
        route_group_name: BaseBusRoute::new_from_number(number),
        trip_timetables: trips,
    }
}

fn route(label: &str) -> RouteDetails {
    RouteDetails {
        route_id: RouteId::new(format!("route-{label}")),
        trip_id: TripId::new(format!("trip-{label}")),
        internal_trip_id: 1,
        route: BusRoute::from_route_name(label).unwrap(),
        name: format!("Route {label}"),
        short_name: label.to_string(),
    }
}

fn stop(code: &str, number: i32) -> StationOnRoute {
    StationOnRoute {
        station_code: BusStationCode::new(code.to_string()),
        internal_station_id: number,
        name: format!("Stop {code}"),
        location: location(),
        stop_number: number,
    }
}

fn capture_time() -> CaptureTime {
    CaptureTime::from_parts(2024, 3, 9, 14, 5, 7, 123_456_789).unwrap()
}

#[test]
fn route_groups_are_distinct() {
    let trips = vec![trip("3G"), trip("N3"), trip("11B"), trip("3")];
    let groups = route_groups_of(&trips);
    assert_eq!(groups, vec![BaseBusRoute::new_from_number(3), BaseBusRoute::new_from_number(11)]);
    assert!(route_groups_of(&vec![]).is_empty());
}

#[test]
fn index_keeps_the_last_timetable_per_key() {
    let mut index = ReconciliationIndex::new();
    let code = StationCode::new("600012".to_string());
    index.record_station(&code, &vec![group(3, vec![trip_timetable("3G", 10)])]);
    index.record_station(&code, &vec![group(3, vec![trip_timetable("3G", 20)])]);
    let route = BusRoute::from_route_name("3G").unwrap();
    assert!(index.covers(&route));
    assert!(!index.covers(&BusRoute::from_route_name("3").unwrap()));
    let found = index.timetable_for(&route, "600012").unwrap();
    assert_eq!(found.timetable[0].minute, 20);
    assert!(index.timetable_for(&route, "600013").is_none());
}

#[test]
fn join_drops_stops_without_a_timetable() {
    let mut index = ReconciliationIndex::new();
    index.record_station(
        &StationCode::new("A".to_string()),
        &vec![group(3, vec![trip_timetable("3G", 1)])],
    );
    index.record_station(
        &StationCode::new("C".to_string()),
        &vec![group(3, vec![trip_timetable("3G", 3)])],
    );
    let joined = join_route_stations(
        &index,
        &BusRoute::from_route_name("3G").unwrap(),
        vec![stop("A", 1), stop("B", 2), stop("C", 3)],
    );
    assert_eq!(joined.len(), 2);
    assert_eq!(joined[0].station.station_code.as_str(), "A");
    assert_eq!(joined[0].timetable.timetable[0].minute, 1);
    assert_eq!(joined[1].station.station_code.as_str(), "C");
    assert_eq!(joined[1].timetable.timetable[0].minute, 3);
}

fn expect_trips_fetch(action: CycleAction, code: &str) {
    match action {
        CycleAction::FetchTripsOnStation { station_code } => assert_eq!(station_code.as_str(), code),
        _ => panic!("expected a trips fetch for {code}"),
    }
}

/// Runs a cycle over stations A, B, C (B's timetable response is empty) and
/// routes 3G (stops A, B, C), 11 (no timetable anywhere) and 6 (no stops).
fn run_cycle() -> (lpp_recorder::snapshot::AllStationsSnapshot, lpp_recorder::snapshot::AllRoutesSnapshot) {
    let (mut cycle, action) = SnapshotCycle::start();
    assert!(matches!(action, CycleAction::FetchStations));

    let action = cycle.handle(CycleEvent::Stations(vec![station("A"), station("B"), station("C"), station("D")]));
    expect_trips_fetch(action, "A");
    let action = cycle.handle(CycleEvent::TripsOnStation(vec![trip("3G"), trip("6")]));
    match action {
        CycleAction::FetchTimetable { station_code, route_groups } => {
            assert_eq!(station_code.as_str(), "A");
            assert_eq!(
                route_groups,
                vec![BaseBusRoute::new_from_number(3), BaseBusRoute::new_from_number(6)]
            );
        }
        _ => panic!("expected a timetable fetch"),
    }
    let action = cycle.handle(CycleEvent::Timetables(vec![
        group(3, vec![trip_timetable("3G", 1)]),
        group(6, vec![trip_timetable("6", 2)]),
    ]));
    expect_trips_fetch(action, "B");
    let action = cycle.handle(CycleEvent::TripsOnStation(vec![trip("3G")]));
    assert!(matches!(action, CycleAction::FetchTimetable { .. }));
    let action = cycle.handle(CycleEvent::Timetables(vec![]));
    expect_trips_fetch(action, "C");
    let action = cycle.handle(CycleEvent::TripsOnStation(vec![trip("3G")]));
    assert!(matches!(action, CycleAction::FetchTimetable { .. }));
    let action = cycle.handle(CycleEvent::Timetables(vec![group(3, vec![trip_timetable("3G", 3)])]));
    expect_trips_fetch(action, "D");
    // A station without trips is skipped without a timetable request.
    let action = cycle.handle(CycleEvent::TripsOnStation(vec![]));
    assert!(matches!(action, CycleAction::FetchAllRoutes));

    let action = cycle.handle(CycleEvent::Routes(vec![route("3G"), route("11"), route("6")]));
    match action {
        CycleAction::FetchStationsOnRoute { trip_id } => assert_eq!(trip_id.as_str(), "trip-3G"),
        _ => panic!("expected a stops fetch for 3G"),
    }
    let action = cycle.handle(CycleEvent::StationsOnRoute(Some(vec![stop("A", 1), stop("B", 2), stop("C", 3)])));
    // Route 11 has no timetable data: it is skipped without a fetch.
    match action {
        CycleAction::FetchStationsOnRoute { trip_id } => assert_eq!(trip_id.as_str(), "trip-6"),
        _ => panic!("expected a stops fetch for 6"),
    }
    let action = cycle.handle(CycleEvent::StationsOnRoute(None));
    assert!(matches!(action, CycleAction::Complete));
    cycle.finish(capture_time())
}

#[test]
fn join_miss_is_tolerated() {
    let (stations, routes) = run_cycle();
    let codes: Vec<&str> = stations.station_details.iter().map(|s| s.station_code.as_str()).collect();
    assert_eq!(codes, vec!["A", "B", "C"]);
    assert_eq!(stations.station_details[0].timetables.len(), 2);
    assert!(stations.station_details[1].timetables.is_empty());
    assert_eq!(routes.routes.len(), 1);
    let stops: Vec<&str> = routes.routes[0]
        .stations_on_route_with_timetables
        .iter()
        .map(|s| s.station.station_code.as_str())
        .collect();
    assert_eq!(stops, vec!["A", "C"]);
}

#[test]
fn route_without_coverage_is_dropped() {
    let (_, routes) = run_cycle();
    let labels: Vec<String> = routes.routes.iter().map(|r| r.route_details.route.to_string()).collect();
    assert_eq!(labels, vec!["3G".to_string()]);
}

#[test]
fn both_snapshots_share_the_capture_time() {
    let (stations, routes) = run_cycle();
    assert_eq!(stations.captured_at, capture_time());
    assert_eq!(routes.captured_at, capture_time());
    assert!(routes.routes.iter().all(|r| r.captured_at == capture_time()));
}

#[test]
fn failed_fetch_aborts_the_cycle() {
    let (mut cycle, _) = SnapshotCycle::start();
    let action = cycle.handle(CycleEvent::Stations(vec![station("A")]));
    expect_trips_fetch(action, "A");
    assert!(matches!(cycle.handle(CycleEvent::FetchFailed), CycleAction::Abort));
}

#[test]
fn unexpected_response_aborts_the_cycle() {
    let (mut cycle, _) = SnapshotCycle::start();
    assert!(matches!(cycle.handle(CycleEvent::Routes(vec![])), CycleAction::Abort));
}

#[test]
fn empty_feed_completes_with_empty_snapshots() {
    let (mut cycle, _) = SnapshotCycle::start();
    assert!(matches!(cycle.handle(CycleEvent::Stations(vec![])), CycleAction::FetchAllRoutes));
    assert!(matches!(cycle.handle(CycleEvent::Routes(vec![route("3G")])), CycleAction::Complete));
    let (stations, routes) = cycle.finish(capture_time());
    assert!(stations.station_details.is_empty());
    assert!(routes.routes.is_empty());
}
