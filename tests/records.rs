use lpp_recorder::fetch::parse_route_group_timetables;
use lpp_recorder::api::{
    GeographicalLocation, RawRouteDetails, RawRouteOnStation, RawStationDetails,
    RawStationOnRoute, RouteDetails, StationDetails, StationOnRoute, TripOnStation,
};
use lpp_recorder::arrivals::{
    ArrivalData, ArrivalEstimation, ArrivalParseError, RawArrivalData, RawStationArrivalDetails,
    StationArrivalDetails,
};
use lpp_recorder::route::{BaseBusRoute, BusRoute};
use lpp_recorder::timetable::{
    RawStationOnTimetable, RawTimetableRouteGroupsData, RawTimetableRouteTimetableEntry,
    RawTripTimetable, RouteGroupTimetable, StationOnTimetable, TimetableEntry, TripTimetable,
};

fn raw_hour(hour: i32, minutes: Vec<i32>) -> RawTimetableRouteTimetableEntry {
    RawTimetableRouteTimetableEntry {
        hour,
        minutes,
        is_current: false,
        timestamp: String::new(),
    }
}

fn raw_trip(hours: Vec<RawTimetableRouteTimetableEntry>, group: &str) -> RawTripTimetable {
    RawTripTimetable {
        timetable: hours,
        stations: vec![RawStationOnTimetable {
            ref_id: "201011".to_string(),
            name: "ŽELEZNA".to_string(),
            order_no: 1,
        }],
        name: "RUDNIK".to_string(),
        parent_name: "LITOSTROJ - Bavarski dvor - RUDNIK".to_string(),
        group_name: group.to_string(),
        route_number_prefix: "N".to_string(),
        route_number_suffix: String::new(),
        is_garage: true,
    }
}

#[test]
fn timetable_entry_bounds() {
    assert_eq!(TimetableEntry::new(1, 0).unwrap(), TimetableEntry { hour: 1, minute: 0 });
    assert_eq!(TimetableEntry::new(24, 59).unwrap(), TimetableEntry { hour: 24, minute: 59 });
    assert_eq!(
        TimetableEntry::new(0, 10).unwrap_err().reason,
        "hour value is smaller than 1!"
    );
    assert_eq!(
        TimetableEntry::new(25, 10).unwrap_err().reason,
        "hour value is larger than 24!"
    );
    assert_eq!(
        TimetableEntry::new(5, 60).unwrap_err().reason,
        "minute value is larger than 59!"
    );
}

#[test]
fn trip_timetable_from_raw() {
    let trip = TripTimetable::from_raw(raw_trip(
        vec![raw_hour(5, vec![11, 52]), raw_hour(6, vec![]), raw_hour(13, vec![0])],
        "3",
    ))
    .unwrap();
    assert_eq!(
        trip.route,
        BusRoute::from_components(Some("N".to_string()), 3, None, None)
    );
    assert_eq!(
        trip.timetable,
        vec![
            TimetableEntry { hour: 5, minute: 11 },
            TimetableEntry { hour: 5, minute: 52 },
            TimetableEntry { hour: 13, minute: 0 },
        ]
    );
    assert_eq!(trip.trip_name, "LITOSTROJ - Bavarski dvor - RUDNIK");
    assert_eq!(trip.short_trip_name, "RUDNIK");
    assert!(trip.ends_in_garage);
    assert_eq!(
        trip.stations,
        vec![StationOnTimetable {
            station_code: "201011".to_string(),
            name: "ŽELEZNA".to_string(),
            stop_number: 1,
        }]
    );
}

#[test]
fn trip_timetable_rejects_bad_values() {
    let error = TripTimetable::from_raw(raw_trip(vec![raw_hour(300, vec![1])], "3")).unwrap_err();
    assert_eq!(error.reason, "hour value can not fit into u8: 300");
    let error = TripTimetable::from_raw(raw_trip(vec![raw_hour(5, vec![-4])], "3")).unwrap_err();
    assert_eq!(error.reason, "minute value can not fit into u8: -4");
    assert!(TripTimetable::from_raw(raw_trip(vec![raw_hour(0, vec![4])], "3")).is_err());
    assert!(TripTimetable::from_raw(raw_trip(vec![raw_hour(5, vec![61])], "3")).is_err());
    let error = TripTimetable::from_raw(raw_trip(vec![], "3B")).unwrap_err();
    assert_eq!(
        error.reason,
        "group_name can not fit into u32 (maybe it has a prefix/suffix and is not a group): 3B"
    );
    let mut raw = raw_trip(vec![], "3");
    raw.stations[0].order_no = -1;
    assert_eq!(
        TripTimetable::from_raw(raw).unwrap_err().reason,
        "order_no value can not fit into u32: -1"
    );
}

#[test]
fn hour_without_arrivals_is_not_checked_for_range() {
    let trip = TripTimetable::from_raw(raw_trip(vec![raw_hour(30, vec![])], "3")).unwrap();
    assert!(trip.timetable.is_empty());
}

#[test]
fn route_group_from_raw() {
    let group = RouteGroupTimetable::from_raw(RawTimetableRouteGroupsData {
        route_group_number: "3".to_string(),
        routes: vec![raw_trip(vec![raw_hour(5, vec![1])], "3"), raw_trip(vec![], "3")],
    })
    .unwrap();
    assert_eq!(group.route_group_name, BaseBusRoute::new_from_number(3));
    assert_eq!(group.trip_timetables.len(), 2);
    assert_eq!(group.trip_timetables[0].timetable.len(), 1);
    assert!(RouteGroupTimetable::from_raw(RawTimetableRouteGroupsData {
        route_group_number: "3G".to_string(),
        routes: vec![],
    })
    .is_err());
}

#[test]
fn station_on_timetable_from_raw() {
    let raw = RawStationOnTimetable { ref_id: "1".to_string(), name: "X".to_string(), order_no: 4 };
    assert_eq!(StationOnTimetable::from_raw(&raw).unwrap().stop_number, 4);
}

#[test]
fn trip_on_station_from_raw() {
    let trip = TripOnStation::from_raw(RawRouteOnStation {
        route_id: "A48D5D5E".to_string(),
        trip_id: "BD96D5A0".to_string(),
        route_number: "3G".to_string(),
        route_name: Some("BEŽIGRAD".to_string()),
        route_group_name: "Adamičev spomenik - GROSUPLJE - BEŽIGRAD".to_string(),
        is_garage: false,
    })
    .unwrap();
    assert_eq!(trip.route, BusRoute::from_components(None, 3, Some("G".to_string()), None));
    assert_eq!(trip.route_id.as_str(), "A48D5D5E");
    assert_eq!(trip.trip_id.as_str(), "BD96D5A0");
    assert_eq!(trip.short_trip_name.as_deref(), Some("BEŽIGRAD"));
    let error = TripOnStation::from_raw(RawRouteOnStation {
        route_id: String::new(),
        trip_id: String::new(),
        route_number: String::new(),
        route_name: None,
        route_group_name: String::new(),
        is_garage: false,
    })
    .unwrap_err();
    assert_eq!(error.route_name, "");
}

#[test]
fn station_details_from_raw() {
    let station = StationDetails::from_raw(RawStationDetails {
        station_int_id: 3307,
        location: GeographicalLocation::from_bits(46.06f64.to_bits(), 14.51f64.to_bits()),
        name: "ŽELEZNA".to_string(),
        station_code: "201011".to_string(),
        routes_on_station: vec!["3G".to_string(), "11B".to_string(), "12".to_string()],
    })
    .unwrap();
    assert_eq!(station.station_code.as_str(), "201011");
    assert_eq!(station.routes_on_station.len(), 3);
    assert_eq!(station.routes_on_station[1], BusRoute::from_components(None, 11, Some("B".to_string()), None));
    assert_eq!(f64::from_bits(station.location.latitude_bits), 46.06);
    assert!(StationDetails::from_raw(RawStationDetails {
        station_int_id: 1,
        location: GeographicalLocation::from_bits(0, 0),
        name: String::new(),
        station_code: String::new(),
        routes_on_station: vec!["".to_string()],
    })
    .is_err());
}

#[test]
fn station_on_route_and_route_details_from_raw() {
    let stop = StationOnRoute::from_raw(RawStationOnRoute {
        station_int_id: 3307,
        station_code: "201011".to_string(),
        name: "ŽELEZNA".to_string(),
        order_no: 1,
        location: GeographicalLocation::from_bits(1, 2),
    });
    assert_eq!(stop.station_code.as_str(), "201011");
    assert_eq!(stop.stop_number, 1);
    let route = RouteDetails::from_raw(RawRouteDetails {
        route_id: "r".to_string(),
        trip_id: "t".to_string(),
        trip_int_id: 9,
        route_number: "N3B".to_string(),
        route_name: "LITOSTROJ - RUDNIK".to_string(),
        short_route_name: "RUDNIK".to_string(),
    })
    .unwrap();
    assert_eq!(route.route.to_string(), "N3B");
    assert_eq!(route.internal_trip_id, 9);
}

fn raw_arrival(estimation_type: i32, eta_min: i32, depot: i32) -> RawArrivalData {
    RawArrivalData {
        route_id: "r".to_string(),
        vehicle_id: "v".to_string(),
        estimation_type,
        eta_min,
        route_name: "3G".to_string(),
        trip_name: "BEŽIGRAD".to_string(),
        depot,
    }
}

#[test]
fn arrival_estimations() {
    let a = ArrivalData::from_raw(raw_arrival(0, 5, 0)).unwrap();
    assert_eq!(a.arrival_estimation, ArrivalEstimation::LocationBased { eta_in_minutes: 5 });
    assert_eq!(a.route, BusRoute::from_components(None, 3, Some("G".to_string()), None));
    assert_eq!(a.route_id.as_str(), "r");
    assert_eq!(a.vehicle_id.as_str(), "v");
    assert!(!a.heading_to_garage);
    let a = ArrivalData::from_raw(raw_arrival(1, 7, 1)).unwrap();
    assert_eq!(a.arrival_estimation, ArrivalEstimation::TimetableBased { eta_in_minutes: 7 });
    assert!(a.heading_to_garage);
    assert_eq!(
        ArrivalData::from_raw(raw_arrival(2, 0, 0)).unwrap().arrival_estimation,
        ArrivalEstimation::CurrentlyArrivingToStation
    );
    assert_eq!(
        ArrivalData::from_raw(raw_arrival(3, 0, 0)).unwrap().arrival_estimation,
        ArrivalEstimation::OnDetour
    );
    assert_eq!(ArrivalData::from_raw(raw_arrival(0, -1, 0)).unwrap_err(), ArrivalParseError::InvalidEta(-1));
    assert_eq!(ArrivalData::from_raw(raw_arrival(4, 1, 0)).unwrap_err(), ArrivalParseError::InvalidType(4));
    assert_eq!(ArrivalData::from_raw(raw_arrival(0, 1, 2)).unwrap_err(), ArrivalParseError::InvalidDepot(2));
    let mut raw = raw_arrival(0, 1, 0);
    raw.route_name = "X".to_string();
    let error = ArrivalData::from_raw(raw).unwrap_err();
    assert_eq!(error, ArrivalParseError::InvalidRouteName("X".to_string()));
    assert_eq!(error.to_string(), "Invalid bus route name: X");
    assert_eq!(
        ArrivalParseError::InvalidType(-7).to_string(),
        "Unrecognized `type` field value: expected 0/1/2/3, got -7"
    );
}

#[test]
fn station_arrivals() {
    let raw = |order: i32, arrivals: Vec<RawArrivalData>| RawStationArrivalDetails {
        station_int_id: 5,
        name: "X".to_string(),
        station_code: "600012".to_string(),
        order_no: order,
        location: GeographicalLocation::from_bits(0, 0),
        arrivals,
    };
    let s = StationArrivalDetails::from_raw(raw(2, vec![raw_arrival(0, 3, 0), raw_arrival(2, 0, 1)])).unwrap();
    assert_eq!(s.internal_station_id, 5);
    assert_eq!(s.station_code.as_str(), "600012");
    assert_eq!(s.stop_number, 2);
    assert_eq!(s.arrivals.len(), 2);
    assert_eq!(s.arrivals[1].arrival_estimation, ArrivalEstimation::CurrentlyArrivingToStation);
    assert_eq!(StationArrivalDetails::from_raw(raw(-2, vec![])).unwrap_err(), ArrivalParseError::InvalidOrderNumber(-2));
    assert_eq!(
        StationArrivalDetails::from_raw(raw(2, vec![raw_arrival(9, 0, 0)])).unwrap_err(),
        ArrivalParseError::InvalidType(9)
    );
}

#[test]
fn timetable_response_keeps_valid_items() {
    let (groups, skipped) = parse_route_group_timetables(vec![
        RawTimetableRouteGroupsData {
            route_group_number: "3".to_string(),
            routes: vec![
                raw_trip(vec![raw_hour(5, vec![1])], "3"),
                raw_trip(vec![raw_hour(99, vec![1])], "3"),
                raw_trip(vec![raw_hour(6, vec![2])], "3"),
            ],
        },
        RawTimetableRouteGroupsData {
            route_group_number: "3G".to_string(),
            routes: vec![],
        },
    ]);
    assert_eq!(groups.len(), 1);
    assert_eq!(groups[0].route_group_name, BaseBusRoute::new_from_number(3));
    assert_eq!(groups[0].trip_timetables.len(), 2);
    assert_eq!(groups[0].trip_timetables[1].timetable[0].hour, 6);
    assert_eq!(
        skipped,
        vec![
            "Could not parse timetable: hour value is larger than 24!".to_string(),
            "Invalid bus route name: 3G".to_string(),
        ]
    );
}
