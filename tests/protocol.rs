use std::path::PathBuf;

use lpp_recorder::cancellation::CancellationToken;
use lpp_recorder::cli::{CLIArgs, RunMode};
use lpp_recorder::fetch::{
    check_response_status, check_success_flag, classify_fetch_result, parse_all_routes,
    parse_stations_on_route, parse_trips_on_station, LppApiFetchError,
};
use lpp_recorder::api::{GeographicalLocation, RawRouteDetails, RawRouteOnStation, RawStationOnRoute};
use lpp_recorder::ids::{StationCode, TripId};
use lpp_recorder::paths::replace_placeholders_in_path;
use lpp_recorder::request::{
    all_routes_request, fetch_hours, routes_on_station_request, single_route_with_shape_request,
    station_details_request, stations_on_route_request, timetable_request, timetable_request_at,
};
use lpp_recorder::retry::RetryableResult;
use lpp_recorder::route::BaseBusRoute;
use lpp_recorder::schedule::{after_cycle, after_failed_cycle, AfterCycle, AfterFailedCycle};
use lpp_recorder::storage::{
    arrival_file_name, route_details_file_name, station_details_file_name, CaptureTime,
};
use lpp_recorder::text::{decimal_string, parse_u32, str_eq};
use lpp_recorder::timetable::TimetableFetchMode;

fn pairs(query: &[(String, String)]) -> Vec<(&str, &str)> {
    query.iter().map(|(k, v)| (k.as_str(), v.as_str())).collect()
}

#[test]
fn properly_build_timetable_url() {
    let request = timetable_request_at(
        &StationCode::new("600012".to_string()),
        &vec![BaseBusRoute::new_from_str("3").unwrap()],
        TimetableFetchMode::Manual { next_hours: 12, previous_hours: 12 },
        9,
    );
    assert_eq!(request.path, "station/timetable");
    assert_eq!(
        pairs(&request.query),
        vec![
            ("station-code", "600012"),
            ("next-hours", "12"),
            ("previous-hours", "12"),
            ("route-group-number", "3"),
        ]
    );

    let request = timetable_request_at(
        &StationCode::new("600012".to_string()),
        &vec![BaseBusRoute::new_from_number(3), BaseBusRoute::new_from_number(18)],
        TimetableFetchMode::Manual { next_hours: 12, previous_hours: 12 },
        9,
    );
    assert_eq!(
        pairs(&request.query),
        vec![
            ("station-code", "600012"),
            ("next-hours", "12"),
            ("previous-hours", "12"),
            ("route-group-number", "3"),
            ("route-group-number", "18"),
        ]
    );
}

#[test]
fn full_day_covers_midnight_to_midnight() {
    assert_eq!(fetch_hours(TimetableFetchMode::FullDay, 9), (15, 9));
    assert_eq!(fetch_hours(TimetableFetchMode::FullDay, 0), (24, 0));
    assert_eq!(fetch_hours(TimetableFetchMode::FullDay, 23), (1, 23));
    assert_eq!(
        fetch_hours(TimetableFetchMode::Manual { next_hours: 2, previous_hours: 3 }, 9),
        (2, 3)
    );
    let request = timetable_request(
        &StationCode::new("1".to_string()),
        &vec![],
        TimetableFetchMode::FullDay,
    );
    let next: u32 = request.query[1].1.parse().unwrap();
    let previous: u32 = request.query[2].1.parse().unwrap();
    assert_eq!(next + previous, 24);
}

#[test]
fn other_requests() {
    let r = station_details_request();
    assert_eq!(r.path, "station-details");
    assert_eq!(pairs(&r.query), vec![("show-subroutes", "1")]);
    let r = routes_on_station_request(&StationCode::new("600012".to_string()));
    assert_eq!(r.path, "station/routes-on-station");
    assert_eq!(pairs(&r.query), vec![("station-code", "600012")]);
    let r = stations_on_route_request(&TripId::new("BD96".to_string()));
    assert_eq!(r.path, "route/stations-on-route");
    assert_eq!(pairs(&r.query), vec![("trip-id", "BD96")]);
    let r = all_routes_request();
    assert_eq!(r.path, "route/routes");
    assert!(r.query.is_empty());
    let r = single_route_with_shape_request("A48D");
    assert_eq!(pairs(&r.query), vec![("route-id", "A48D"), ("shape", "1")]);
}

#[test]
fn response_status_classes() {
    assert!(check_response_status(200).is_ok());
    assert!(check_response_status(304).is_ok());
    assert!(matches!(check_response_status(404), Err(LppApiFetchError::ClientHTTPError(404))));
    assert!(matches!(check_response_status(429), Err(LppApiFetchError::ClientHTTPError(429))));
    assert!(matches!(check_response_status(503), Err(LppApiFetchError::ServerHTTPError(503))));
    assert!(check_response_status(429).unwrap_err().is_rate_limited());
    assert!(!check_response_status(404).unwrap_err().is_rate_limited());
    assert!(check_success_flag(true).is_ok());
    assert!(matches!(
        check_success_flag(false),
        Err(LppApiFetchError::APIResponseNotSuccessful { .. })
    ));
}

#[test]
fn schema_errors_are_permanent_and_the_rest_transient() {
    let r: RetryableResult<u32, _> = classify_fetch_result(Ok(3));
    assert!(matches!(r, RetryableResult::Success(3)));
    let r: RetryableResult<u32, _> = classify_fetch_result(Err(LppApiFetchError::malformed_response()));
    assert!(matches!(r, RetryableResult::PermanentErr { .. }));
    let r: RetryableResult<u32, _> =
        classify_fetch_result(Err(LppApiFetchError::ResponseDecodingError("eof".to_string())));
    assert!(matches!(r, RetryableResult::PermanentErr { .. }));
    let r: RetryableResult<u32, _> = classify_fetch_result(Err(LppApiFetchError::ClientHTTPError(429)));
    assert!(matches!(r, RetryableResult::TransientErr { override_retry_after: None, .. }));
    let r: RetryableResult<u32, _> = classify_fetch_result(Err(LppApiFetchError::ServerHTTPError(502)));
    assert!(matches!(r, RetryableResult::TransientErr { .. }));
    let r: RetryableResult<u32, _> =
        classify_fetch_result(Err(LppApiFetchError::RequestError("reset".to_string())));
    assert!(matches!(r, RetryableResult::TransientErr { .. }));
}

#[test]
fn response_records_are_converted() {
    let trip = |label: &str| RawRouteOnStation {
        route_id: "r".to_string(),
        trip_id: "t".to_string(),
        route_number: label.to_string(),
        route_name: None,
        route_group_name: "x".to_string(),
        is_garage: false,
    };
    let (trips, skipped) = parse_trips_on_station(vec![trip("N3B"), trip(""), trip("11")]);
    let labels: Vec<String> = trips.iter().map(|t| t.route.to_string()).collect();
    assert_eq!(labels, vec!["N3B".to_string(), "11".to_string()]);
    assert_eq!(skipped, vec!["Invalid bus route name: ".to_string()]);
    let route = |label: &str| RawRouteDetails {
        route_id: "r".to_string(),
        trip_id: "t".to_string(),
        trip_int_id: 1,
        route_number: label.to_string(),
        route_name: "x".to_string(),
        short_route_name: "x".to_string(),
    };
    let (routes, skipped) = parse_all_routes(vec![route("X"), route("6")]);
    assert_eq!(routes.len(), 1);
    assert_eq!(routes[0].route.to_string(), "6");
    assert_eq!(skipped, vec!["Invalid bus route name: X".to_string()]);
    assert!(parse_stations_on_route(vec![]).is_none());
    let stops = parse_stations_on_route(vec![RawStationOnRoute {
        station_int_id: 1,
        station_code: "201011".to_string(),
        name: "x".to_string(),
        order_no: 1,
        location: GeographicalLocation::from_bits(0, 0),
    }])
    .unwrap();
    assert_eq!(stops[0].station_code.as_str(), "201011");
}

#[test]
fn snapshot_file_names() {
    let t = CaptureTime::from_parts(2024, 3, 9, 14, 5, 7, 123_456_789).unwrap();
    assert_eq!(
        station_details_file_name(&t),
        "station-details_2024-03-09_14-05-07.123+UTC.json"
    );
    assert_eq!(route_details_file_name(&t), "route-details_2024-03-09_14-05-07.123+UTC.json");
    let t = CaptureTime::from_parts(987, 12, 31, 0, 0, 0, 5_000_000).unwrap();
    assert_eq!(arrival_file_name(&t), "arrival_0987-12-31_00-00-00.005+UTC.json");
    assert!(CaptureTime::from_parts(2024, 13, 1, 0, 0, 0, 0).is_none());
    assert!(CaptureTime::from_parts(2024, 1, 1, 24, 0, 0, 0).is_none());
    assert!(CaptureTime::from_parts(10000, 1, 1, 0, 0, 0, 0).is_none());
}

#[test]
fn run_mode_from_arguments() {
    let args = |mode: Option<&str>| CLIArgs { config_file_path: None, run_mode: mode.map(String::from) };
    assert_eq!(args(None).run_mode().unwrap(), RunMode::Once);
    assert_eq!(args(Some("once")).run_mode().unwrap(), RunMode::Once);
    assert_eq!(args(Some("PERPETUAL")).run_mode().unwrap(), RunMode::Perpetual);
    let error = args(Some("Daily")).run_mode().unwrap_err();
    assert_eq!(error.run_mode, "daily");
    assert_eq!(error.to_string(), "Invalid run mode (expected once/perpetual): daily");
    let with_path = CLIArgs { config_file_path: Some(PathBuf::from("a.toml")), run_mode: None };
    assert_eq!(with_path.run_mode().unwrap(), RunMode::Once);
}

#[test]
fn loop_sleeps_for_what_is_left_of_the_interval() {
    assert_eq!(after_cycle(RunMode::Once, 1000, 10), AfterCycle::Exit);
    assert_eq!(after_cycle(RunMode::Perpetual, 60_000, 15_000), AfterCycle::SleepMillis(45_000));
    assert_eq!(after_cycle(RunMode::Perpetual, 60_000, 90_000), AfterCycle::SleepMillis(0));
}

#[test]
fn failed_cycle_waits_for_the_next_one_in_perpetual_mode() {
    assert_eq!(after_failed_cycle(RunMode::Once, 1000, 10), AfterFailedCycle::GiveUp);
    assert_eq!(
        after_failed_cycle(RunMode::Perpetual, 60_000, 15_000),
        AfterFailedCycle::SleepMillis(45_000)
    );
    assert_eq!(after_failed_cycle(RunMode::Perpetual, 10, 90_000), AfterFailedCycle::SleepMillis(0));
}

#[test]
fn cancellation_is_shared_between_clones() {
    let token = CancellationToken::new();
    let other = token.clone();
    assert!(!token.is_cancelled());
    other.cancel();
    assert!(token.is_cancelled());
}

#[test]
fn placeholders_are_replaced_in_order() {
    let path = replace_placeholders_in_path(
        "/data/{kind}/{date}",
        &vec![
            ("{kind}".to_string(), "routes".to_string()),
            ("{date}".to_string(), "2024-03-09".to_string()),
        ],
    );
    assert_eq!(path, "/data/routes/2024-03-09");
    assert_eq!(replace_placeholders_in_path("/x", &vec![]), "/x");
}

#[test]
fn decimal_helpers() {
    assert_eq!(parse_u32("4294967295"), Some(u32::MAX));
    assert_eq!(parse_u32("4294967296"), None);
    assert_eq!(parse_u32("+12"), Some(12));
    assert_eq!(parse_u32("+"), None);
    assert_eq!(parse_u32("-1"), None);
    assert_eq!(parse_u32(""), None);
    assert_eq!(decimal_string(0), "0");
    assert_eq!(decimal_string(4_294_967_295), "4294967295");
    assert!(str_eq("ŠOLSKA", "ŠOLSKA"));
    assert!(!str_eq("A", "AB"));
}

#[test]
fn placeholder_matches_do_not_overlap() {
    assert_eq!(
        replace_placeholders_in_path("aaa", &vec![("aa".to_string(), "b".to_string())]),
        "ba"
    );
    assert_eq!(
        replace_placeholders_in_path("ab", &vec![("".to_string(), "x".to_string())]),
        "xaxbx"
    );
}
