//! The checks every endpoint's response goes through, the conversion of its
//! raw records, and how a failed fetch is judged for retrying.

use vstd::prelude::*;

use crate::api::{
    route_matches_raw, routes_valid, station_matches_raw, stop_matches_raw, trip_matches_raw,
    RawRouteDetails, RawRouteOnStation, RawStationDetails, RawStationOnRoute, RouteDetails,
    StationDetails, StationOnRoute, TripOnStation,
};
use crate::arrivals::{
    station_arrivals_match_raw, station_arrivals_valid, RawStationArrivalDetails,
    StationArrivalDetails,
};
use crate::retry::RetryableResult;
use crate::route::parse_label;
use crate::snapshot::reversed;
use crate::route::BaseBusRoute;
use crate::text::{message_with_text, parse_u32, parse_u32_spec};
use crate::timetable::{
    raw_trip_valid, trip_model_of_raw, RawTimetableRouteGroupsData, RawTripTimetable,
    RouteGroupTimetable, TripTimetable, TripTimetableModel,
};

verus! {

/// Why a fetch from the remote API failed.
#[derive(Debug)]
#[allow(inconsistent_fields)]
pub enum LppApiFetchError {
    /// The request URL could not be built.
    UrlError(String),
    /// The request could not be made (network or I/O failure).
    RequestError(String),
    /// The response's `success` field was false.
    APIResponseNotSuccessful { reason: String },
    /// The response did not have the expected shape.
    APIResponseMalformed { reason: Option<String> },
    /// A 4xx status.
    ClientHTTPError(u16),
    /// A 5xx status.
    ServerHTTPError(u16),
    /// The response body was not the expected JSON.
    ResponseDecodingError(String),
}

impl LppApiFetchError {
    pub fn malformed_response() -> (r: Self)
        ensures
            r == (LppApiFetchError::APIResponseMalformed { reason: None }),
    {
        Self::APIResponseMalformed { reason: None }
    }

    pub fn malformed_response_with_reason(reason: String) -> (r: Self)
        ensures
            r == (LppApiFetchError::APIResponseMalformed { reason: Some(reason) }),
    {
        Self::APIResponseMalformed { reason: Some(reason) }
    }

    /// Whether this is the rate-limiting status, 429 Too Many Requests.
    pub fn is_rate_limited(&self) -> (r: bool)
        ensures
            r == (self matches LppApiFetchError::ClientHTTPError(s) && s == 429),
    {
        match self {
            LppApiFetchError::ClientHTTPError(status) => *status == 429,
            _ => false,
        }
    }
}

/// Turns a response status into an error: 4xx is a client error, 5xx a
/// server error, anything else passes.
pub fn check_response_status(status: u16) -> (r: Result<(), LppApiFetchError>)
    ensures
        400 <= status < 500 ==> r == Err::<(), LppApiFetchError>(LppApiFetchError::ClientHTTPError(status)),
        500 <= status < 600 ==> r == Err::<(), LppApiFetchError>(LppApiFetchError::ServerHTTPError(status)),
        !(400 <= status < 600) ==> r is Ok,
{
    if 400 <= status && status < 500 {
        Err(LppApiFetchError::ClientHTTPError(status))
    } else if 500 <= status && status < 600 {
        Err(LppApiFetchError::ServerHTTPError(status))
    } else {
        Ok(())
    }
}

/// Turns the envelope's `success` field into an error when it is false.
pub fn check_success_flag(success: bool) -> (r: Result<(), LppApiFetchError>)
    ensures
        success <==> r is Ok,
        r matches Err(e) ==> e is APIResponseNotSuccessful,
{
    if success {
        Ok(())
    } else {
        Err(LppApiFetchError::APIResponseNotSuccessful { reason: "success field is false".to_owned() })
    }
}

/// Judges a fetch for retrying: a response that did not have the expected
/// shape is permanent, since retrying cannot fix a contract mismatch; every
/// other failure (transport, status, `success: false`) is transient.
pub fn classify_fetch_result<T>(result: Result<T, LppApiFetchError>) -> (r: RetryableResult<
    T,
    LppApiFetchError,
>)
    ensures
        match result {
            Ok(v) => r == RetryableResult::<T, LppApiFetchError>::Success(v),
            Err(e) => if e is APIResponseMalformed || e is ResponseDecodingError {
                r == (RetryableResult::<T, LppApiFetchError>::PermanentErr { error: e })
            } else {
                r == (RetryableResult::<T, LppApiFetchError>::TransientErr {
                    error: e,
                    override_retry_after: None,
                })
            },
        },
{
    match result {
        Ok(v) => RetryableResult::Success(v),
        Err(e) => match e {
            LppApiFetchError::APIResponseMalformed { .. } | LppApiFetchError::ResponseDecodingError(
                _,
            ) => RetryableResult::PermanentErr { error: e },
            _ => RetryableResult::TransientErr { error: e, override_retry_after: None },
        },
    }
}

pub open spec fn trip_label_valid(raw: RawRouteOnStation) -> bool {
    parse_label(raw.route_number@) is Some
}

pub open spec fn route_label_valid(raw: RawRouteDetails) -> bool {
    parse_label(raw.route_number@) is Some
}

/// The raw stations that have only valid route labels, in order.
pub open spec fn kept_stations(raw: Seq<RawStationDetails>) -> Seq<RawStationDetails>
    decreases raw.len(),
{
    if raw.len() == 0 {
        Seq::empty()
    } else if routes_valid(raw.last()) {
        kept_stations(raw.drop_last()).push(raw.last())
    } else {
        kept_stations(raw.drop_last())
    }
}

/// Interprets the stations of a station-details response. One that lists a route that is not a route label
/// is skipped, and the message of its error is listed instead; the others are
/// kept in order.
pub fn parse_station_details(raw: Vec<RawStationDetails>) -> (r: (Vec<StationDetails>, Vec<String>))
    ensures
        r.0@.len() == kept_stations(raw@).len(),
        forall|i: int| 0 <= i < r.0@.len() ==> station_matches_raw(#[trigger] r.0@[i], kept_stations(raw@)[i]),
        r.0@.len() + r.1@.len() == raw@.len(),
{
    let ghost orig = raw@;
    let mut rest = reversed(raw);
    let mut kept: Vec<StationDetails> = Vec::new();
    let mut skipped: Vec<String> = Vec::new();
    let ghost mut i: int = 0;
    while rest.len() > 0
        invariant
            0 <= i <= orig.len(),
            rest@.len() == orig.len() - i,
            forall|j: int| 0 <= j < rest@.len() ==> rest@[j] == orig[orig.len() - 1 - j],
            kept@.len() == kept_stations(orig.subrange(0, i)).len(),
            forall|j: int| 0 <= j < kept@.len() ==> station_matches_raw(#[trigger] kept@[j], kept_stations(orig.subrange(0, i))[j]),
            kept@.len() + skipped@.len() == i,
        decreases rest@.len(),
    {
        let item = rest.pop().unwrap();
        let ghost next = orig.subrange(0, i + 1);
        assert(item == orig[i]);
        assert(next.drop_last() =~= orig.subrange(0, i));
        assert(next.last() == item);
        match StationDetails::from_raw(item) {
            Ok(converted) => {
                kept.push(converted);
            },
            Err(error) => {
                skipped.push(error.to_string());
            },
        }
        proof {
            i = i + 1;
        }
    }
    assert(orig.subrange(0, i) =~= orig);
    (kept, skipped)
}

/// The raw trips that have a valid route label, in order.
pub open spec fn kept_trips(raw: Seq<RawRouteOnStation>) -> Seq<RawRouteOnStation>
    decreases raw.len(),
{
    if raw.len() == 0 {
        Seq::empty()
    } else if trip_label_valid(raw.last()) {
        kept_trips(raw.drop_last()).push(raw.last())
    } else {
        kept_trips(raw.drop_last())
    }
}

/// Interprets the trips of a routes-on-station response. One that has a route number that is not a route label
/// is skipped, and the message of its error is listed instead; the others are
/// kept in order.
pub fn parse_trips_on_station(raw: Vec<RawRouteOnStation>) -> (r: (Vec<TripOnStation>, Vec<String>))
    ensures
        r.0@.len() == kept_trips(raw@).len(),
        forall|i: int| 0 <= i < r.0@.len() ==> trip_matches_raw(#[trigger] r.0@[i], kept_trips(raw@)[i]),
        r.0@.len() + r.1@.len() == raw@.len(),
{
    let ghost orig = raw@;
    let mut rest = reversed(raw);
    let mut kept: Vec<TripOnStation> = Vec::new();
    let mut skipped: Vec<String> = Vec::new();
    let ghost mut i: int = 0;
    while rest.len() > 0
        invariant
            0 <= i <= orig.len(),
            rest@.len() == orig.len() - i,
            forall|j: int| 0 <= j < rest@.len() ==> rest@[j] == orig[orig.len() - 1 - j],
            kept@.len() == kept_trips(orig.subrange(0, i)).len(),
            forall|j: int| 0 <= j < kept@.len() ==> trip_matches_raw(#[trigger] kept@[j], kept_trips(orig.subrange(0, i))[j]),
            kept@.len() + skipped@.len() == i,
        decreases rest@.len(),
    {
        let item = rest.pop().unwrap();
        let ghost next = orig.subrange(0, i + 1);
        assert(item == orig[i]);
        assert(next.drop_last() =~= orig.subrange(0, i));
        assert(next.last() == item);
        match TripOnStation::from_raw(item) {
            Ok(converted) => {
                kept.push(converted);
            },
            Err(error) => {
                skipped.push(error.to_string());
            },
        }
        proof {
            i = i + 1;
        }
    }
    assert(orig.subrange(0, i) =~= orig);
    (kept, skipped)
}

/// The raw routes that have a valid route label, in order.
pub open spec fn kept_routes(raw: Seq<RawRouteDetails>) -> Seq<RawRouteDetails>
    decreases raw.len(),
{
    if raw.len() == 0 {
        Seq::empty()
    } else if route_label_valid(raw.last()) {
        kept_routes(raw.drop_last()).push(raw.last())
    } else {
        kept_routes(raw.drop_last())
    }
}

/// Interprets the routes of a routes response. One that has a route number that is not a route label
/// is skipped, and the message of its error is listed instead; the others are
/// kept in order.
pub fn parse_all_routes(raw: Vec<RawRouteDetails>) -> (r: (Vec<RouteDetails>, Vec<String>))
    ensures
        r.0@.len() == kept_routes(raw@).len(),
        forall|i: int| 0 <= i < r.0@.len() ==> route_matches_raw(#[trigger] r.0@[i], kept_routes(raw@)[i]),
        r.0@.len() + r.1@.len() == raw@.len(),
{
    let ghost orig = raw@;
    let mut rest = reversed(raw);
    let mut kept: Vec<RouteDetails> = Vec::new();
    let mut skipped: Vec<String> = Vec::new();
    let ghost mut i: int = 0;
    while rest.len() > 0
        invariant
            0 <= i <= orig.len(),
            rest@.len() == orig.len() - i,
            forall|j: int| 0 <= j < rest@.len() ==> rest@[j] == orig[orig.len() - 1 - j],
            kept@.len() == kept_routes(orig.subrange(0, i)).len(),
            forall|j: int| 0 <= j < kept@.len() ==> route_matches_raw(#[trigger] kept@[j], kept_routes(orig.subrange(0, i))[j]),
            kept@.len() + skipped@.len() == i,
        decreases rest@.len(),
    {
        let item = rest.pop().unwrap();
        let ghost next = orig.subrange(0, i + 1);
        assert(item == orig[i]);
        assert(next.drop_last() =~= orig.subrange(0, i));
        assert(next.last() == item);
        match RouteDetails::from_raw(item) {
            Ok(converted) => {
                kept.push(converted);
            },
            Err(error) => {
                skipped.push(error.to_string());
            },
        }
        proof {
            i = i + 1;
        }
    }
    assert(orig.subrange(0, i) =~= orig);
    (kept, skipped)
}

/// Interprets the stops of a stations-on-route response: none when it lists
/// no stops.
pub fn parse_stations_on_route(raw: Vec<RawStationOnRoute>) -> (r: Option<Vec<StationOnRoute>>)
    ensures
        r is None <==> raw@.len() == 0,
        r matches Some(v) ==> v@.len() == raw@.len() && forall|i: int|
            0 <= i < raw@.len() ==> stop_matches_raw(#[trigger] v@[i], raw@[i]),
{
    if raw.len() == 0 {
        return None;
    }
    let ghost orig = raw@;
    let mut rest = raw;
    let mut reversed: Vec<StationOnRoute> = Vec::new();
    while rest.len() > 0
        invariant
            orig == raw@,
            rest@ == orig.subrange(0, rest@.len() as int),
            reversed@.len() + rest@.len() == orig.len(),
            forall|k: int|
                0 <= k < reversed@.len() ==> stop_matches_raw(#[trigger] reversed@[k], orig[orig.len() - 1 - k]),
        decreases rest@.len(),
    {
        let ghost n = rest@.len();
        let item = rest.pop().unwrap();
        assert(item == orig[n - 1]);
        reversed.push(StationOnRoute::from_raw(item));
    }
    let mut out: Vec<StationOnRoute> = Vec::new();
    while reversed.len() > 0
        invariant
            out@.len() + reversed@.len() == orig.len(),
            forall|k: int|
                0 <= k < reversed@.len() ==> stop_matches_raw(#[trigger] reversed@[k], orig[orig.len() - 1 - k]),
            forall|k: int| 0 <= k < out@.len() ==> stop_matches_raw(#[trigger] out@[k], orig[k]),
        decreases reversed@.len(),
    {
        let s = reversed.pop().unwrap();
        out.push(s);
    }
    Some(out)
}

/// The timetables of the valid raw trip timetables, in order.
pub open spec fn kept_trip_models(routes: Seq<RawTripTimetable>) -> Seq<TripTimetableModel>
    decreases routes.len(),
{
    if routes.len() == 0 {
        Seq::empty()
    } else if raw_trip_valid(routes.last()) {
        kept_trip_models(routes.drop_last()).push(trip_model_of_raw(routes.last()))
    } else {
        kept_trip_models(routes.drop_last())
    }
}

/// The groups whose number is a bare number, each with its valid trip
/// timetables, in order.
pub open spec fn kept_groups(raw: Seq<RawTimetableRouteGroupsData>) -> Seq<(u32, Seq<TripTimetableModel>)>
    decreases raw.len(),
{
    if raw.len() == 0 {
        Seq::empty()
    } else {
        let earlier = kept_groups(raw.drop_last());
        match parse_u32_spec(raw.last().route_group_number@) {
            Some(n) => earlier.push((n, kept_trip_models(raw.last().routes@))),
            None => earlier,
        }
    }
}

pub open spec fn group_view(g: RouteGroupTimetable) -> (u32, Seq<TripTimetableModel>) {
    (g.route_group_name.number(), g.trip_timetables@.map_values(|t: TripTimetable| t@))
}

/// The valid trip timetables of one raw group, in order; the messages of the
/// others are appended to `skipped`.
fn keep_valid_trips(routes: Vec<RawTripTimetable>, skipped: &mut Vec<String>) -> (r: Vec<TripTimetable>)
    ensures
        r@.map_values(|t: TripTimetable| t@) == kept_trip_models(routes@),
{
    let ghost orig = routes@;
    let mut rest = reversed(routes);
    let mut kept: Vec<TripTimetable> = Vec::new();
    let ghost mut i: int = 0;
    while rest.len() > 0
        invariant
            0 <= i <= orig.len(),
            rest@.len() == orig.len() - i,
            forall|j: int| 0 <= j < rest@.len() ==> rest@[j] == orig[orig.len() - 1 - j],
            kept@.map_values(|t: TripTimetable| t@) == kept_trip_models(orig.subrange(0, i)),
        decreases rest@.len(),
    {
        let item = rest.pop().unwrap();
        let ghost next = orig.subrange(0, i + 1);
        assert(item == orig[i]);
        assert(next.drop_last() =~= orig.subrange(0, i));
        assert(next.last() == item);
        let ghost before = kept@;
        match TripTimetable::from_raw(item) {
            Ok(converted) => {
                kept.push(converted);
                assert(kept@.map_values(|t: TripTimetable| t@) =~= before.map_values(
                    |t: TripTimetable| t@,
                ).push(converted@));
            },
            Err(error) => {
                skipped.push(error.to_string());
            },
        }
        proof {
            i = i + 1;
        }
    }
    assert(orig.subrange(0, i) =~= orig);
    kept
}

/// Interprets the route groups of a timetable response. A group whose number
/// is not a bare number is skipped, and so is each trip timetable that cannot
/// be interpreted; the message of each skipped item is listed. What is valid
/// is kept, in order.
pub fn parse_route_group_timetables(raw: Vec<RawTimetableRouteGroupsData>) -> (r: (
    Vec<RouteGroupTimetable>,
    Vec<String>,
))
    ensures
        r.0@.map_values(|g: RouteGroupTimetable| group_view(g)) == kept_groups(raw@),
{
    let ghost orig = raw@;
    let mut rest = reversed(raw);
    let mut kept: Vec<RouteGroupTimetable> = Vec::new();
    let mut skipped: Vec<String> = Vec::new();
    let ghost mut i: int = 0;
    while rest.len() > 0
        invariant
            0 <= i <= orig.len(),
            rest@.len() == orig.len() - i,
            forall|j: int| 0 <= j < rest@.len() ==> rest@[j] == orig[orig.len() - 1 - j],
            kept@.map_values(|g: RouteGroupTimetable| group_view(g)) == kept_groups(orig.subrange(0, i)),
        decreases rest@.len(),
    {
        let item = rest.pop().unwrap();
        let ghost next = orig.subrange(0, i + 1);
        assert(item == orig[i]);
        assert(next.drop_last() =~= orig.subrange(0, i));
        assert(next.last() == item);
        let ghost before = kept@;
        match parse_u32(item.route_group_number.as_str()) {
            Some(n) => {
                let trip_timetables = keep_valid_trips(item.routes, &mut skipped);
                let group = RouteGroupTimetable {
                    route_group_name: BaseBusRoute::new_from_number(n),
                    trip_timetables,
                };
                kept.push(group);
                assert(kept@.map_values(|g: RouteGroupTimetable| group_view(g)) =~= before.map_values(
                    |g: RouteGroupTimetable| group_view(g),
                ).push(group_view(group)));
            },
            None => {
                skipped.push(message_with_text("Invalid bus route name: ", item.route_group_number.as_str()));
            },
        }
        proof {
            i = i + 1;
        }
    }
    assert(orig.subrange(0, i) =~= orig);
    (kept, skipped)
}

/// The raw stops of an arrivals response that are valid, in order.
pub open spec fn kept_arrival_stations(raw: Seq<RawStationArrivalDetails>) -> Seq<RawStationArrivalDetails>
    decreases raw.len(),
{
    if raw.len() == 0 {
        Seq::empty()
    } else if station_arrivals_valid(raw.last()) {
        kept_arrival_stations(raw.drop_last()).push(raw.last())
    } else {
        kept_arrival_stations(raw.drop_last())
    }
}

/// Interprets the stops of an arrivals-on-route response. A stop that cannot
/// be interpreted is skipped, and the message of its error is listed instead;
/// the others are kept in order.
pub fn parse_arrivals_on_route(raw: Vec<RawStationArrivalDetails>) -> (r: (
    Vec<StationArrivalDetails>,
    Vec<String>,
))
    ensures
        r.0@.len() == kept_arrival_stations(raw@).len(),
        forall|i: int|
            0 <= i < r.0@.len() ==> station_arrivals_match_raw(
                #[trigger] r.0@[i],
                kept_arrival_stations(raw@)[i],
            ),
        r.0@.len() + r.1@.len() == raw@.len(),
{
    let ghost orig = raw@;
    let mut rest = reversed(raw);
    let mut kept: Vec<StationArrivalDetails> = Vec::new();
    let mut skipped: Vec<String> = Vec::new();
    let ghost mut i: int = 0;
    while rest.len() > 0
        invariant
            0 <= i <= orig.len(),
            rest@.len() == orig.len() - i,
            forall|j: int| 0 <= j < rest@.len() ==> rest@[j] == orig[orig.len() - 1 - j],
            kept@.len() == kept_arrival_stations(orig.subrange(0, i)).len(),
            forall|j: int|
                0 <= j < kept@.len() ==> station_arrivals_match_raw(
                    #[trigger] kept@[j],
                    kept_arrival_stations(orig.subrange(0, i))[j],
                ),
            kept@.len() + skipped@.len() == i,
        decreases rest@.len(),
    {
        let item = rest.pop().unwrap();
        let ghost next = orig.subrange(0, i + 1);
        assert(item == orig[i]);
        assert(next.drop_last() =~= orig.subrange(0, i));
        assert(next.last() == item);
        match StationArrivalDetails::from_raw(item) {
            Ok(converted) => {
                kept.push(converted);
            },
            Err(error) => {
                skipped.push(error.to_string());
            },
        }
        proof {
            i = i + 1;
        }
    }
    assert(orig.subrange(0, i) =~= orig);
    (kept, skipped)
}

} // verus!
