//! The snapshot reconciler: joins independently fetched stations, trips,
//! timetables, routes and stops-on-route into two consistent snapshots.
//!
//! One cycle runs in two phases. Phase 1 visits every station: it fetches the
//! trips that stop there, and, unless there are none, one timetable response
//! for all their route groups, which it files in the reconciliation index under
//! (route, station). Phase 2 visits every route: a route without any timetable
//! in the index is dropped; otherwise its stops are fetched and each stop is
//! paired with the route's timetable at that stop, stops without one being
//! dropped. Fetching is the caller's: [`SnapshotCycle`] says what to fetch
//! next and takes what came back.

use vstd::prelude::*;

use crate::api::{GeographicalLocation, RouteDetails, StationDetails, StationOnRoute, TripOnStation};
use crate::ids::{StationCode, TripId};
use crate::route::{BaseBusRoute, BusRoute, RouteLabel};
use crate::storage::CaptureTime;
use crate::text::str_eq;
use crate::timetable::{RouteGroupTimetable, TripTimetable, TripTimetableModel};

verus! {

/// A station with the trips that stop there and its timetables.
#[derive(Debug)]
pub struct StationDetailsWithBusDetailsAndTimetables {
    pub station_code: StationCode,
    pub internal_station_id: i32,
    pub name: String,
    pub location: GeographicalLocation,
    pub trips_on_station: Vec<TripOnStation>,
    pub timetables: Vec<RouteGroupTimetable>,
}

impl StationDetailsWithBusDetailsAndTimetables {
    #[inline]
    pub fn from_station_and_trips(
        station: StationDetails,
        trips: Vec<TripOnStation>,
        timetables: Vec<RouteGroupTimetable>,
    ) -> (r: Self)
        ensures
            r.station_code == station.station_code,
            r.internal_station_id == station.internal_station_id,
            r.name == station.name,
            r.location == station.location,
            r.trips_on_station == trips,
            r.timetables == timetables,
    {
        Self {
            station_code: station.station_code,
            internal_station_id: station.internal_station_id,
            name: station.name,
            location: station.location,
            trips_on_station: trips,
            timetables,
        }
    }
}

/// Every station of one cycle.
#[derive(Debug)]
pub struct AllStationsSnapshot {
    pub captured_at: CaptureTime,
    pub station_details: Vec<StationDetailsWithBusDetailsAndTimetables>,
}

impl AllStationsSnapshot {
    pub fn new(
        timestamp: CaptureTime,
        station_details: Vec<StationDetailsWithBusDetailsAndTimetables>,
    ) -> (r: Self)
        ensures
            r.captured_at == timestamp,
            r.station_details == station_details,
    {
        Self { captured_at: timestamp, station_details }
    }
}

/// A stop of a route with the route's timetable there.
#[derive(Debug)]
pub struct TripStationWithTimetable {
    pub station: StationOnRoute,
    pub timetable: TripTimetable,
}

/// A route with its stops and their timetables.
#[derive(Debug)]
pub struct TripWithStationsAndTimetables {
    pub captured_at: CaptureTime,
    pub route_details: RouteDetails,
    pub stations_on_route_with_timetables: Vec<TripStationWithTimetable>,
}

/// Every route of one cycle that had timetable data.
#[derive(Debug)]
pub struct AllRoutesSnapshot {
    pub captured_at: CaptureTime,
    pub routes: Vec<TripWithStationsAndTimetables>,
}

impl AllRoutesSnapshot {
    #[inline]
    pub fn new(captured_at: CaptureTime, routes: Vec<TripWithStationsAndTimetables>) -> (r: Self)
        ensures
            r.captured_at == captured_at,
            r.routes == routes,
    {
        Self { captured_at, routes }
    }
}

/// The distinct route-group numbers of trips, in order of first appearance.
pub open spec fn group_numbers(trips: Seq<TripOnStation>) -> Seq<u32>
    decreases trips.len(),
{
    if trips.len() == 0 {
        Seq::empty()
    } else {
        let earlier = group_numbers(trips.drop_last());
        let n = trips.last().route.base_route_number;
        if earlier.contains(n) {
            earlier
        } else {
            earlier.push(n)
        }
    }
}

pub open spec fn numbers_of(groups: Seq<BaseBusRoute>) -> Seq<u32> {
    groups.map_values(|g: BaseBusRoute| g.number())
}

/// Trips always span at least one route group.
pub proof fn lemma_group_numbers_empty(trips: Seq<TripOnStation>)
    ensures
        group_numbers(trips).len() == 0 <==> trips.len() == 0,
    decreases trips.len(),
{
    if trips.len() > 0 {
        lemma_group_numbers_empty(trips.drop_last());
        let earlier = group_numbers(trips.drop_last());
        if earlier.contains(trips.last().route.base_route_number) {
            assert(earlier.len() > 0);
        }
    }
}

/// The distinct route groups of a station's trips, in order of first appearance.
pub fn route_groups_of(trips: &Vec<TripOnStation>) -> (r: Vec<BaseBusRoute>)
    ensures
        numbers_of(r@) == group_numbers(trips@),
{
    let mut groups: Vec<BaseBusRoute> = Vec::new();
    let mut i: usize = 0;
    assert(numbers_of(groups@) =~= group_numbers(trips@.subrange(0, 0)));
    while i < trips.len()
        invariant
            i <= trips@.len(),
            numbers_of(groups@) == group_numbers(trips@.subrange(0, i as int)),
        decreases trips@.len() - i,
    {
        let base = trips[i].route.to_base_route();
        let ghost nums = numbers_of(groups@);
        let mut found = false;
        let mut j: usize = 0;
        while j < groups.len()
            invariant
                j <= groups@.len(),
                nums == numbers_of(groups@),
                found <==> exists|k: int| 0 <= k < j && nums[k] == base.number(),
            decreases groups@.len() - j,
        {
            assert(nums[j as int] == groups@[j as int].number());
            if groups[j].get() == base.get() {
                found = true;
            }
            j = j + 1;
        }
        let ghost next = trips@.subrange(0, i + 1);
        assert(next.drop_last() =~= trips@.subrange(0, i as int));
        assert(next.last() == trips@[i as int]);
        assert(found <==> nums.contains(base.number()));
        if !found {
            groups.push(base);
            assert(numbers_of(groups@) =~= nums.push(base.number()));
        }
        i = i + 1;
    }
    assert(trips@.subrange(0, i as int) =~= trips@);
    groups
}

/// One entry of the reconciliation index, as a value.
pub struct IndexEntryModel {
    pub route: RouteLabel,
    pub station: Seq<char>,
    pub timetable: TripTimetableModel,
}

/// The timetable filed last under `(route, station)`, if any.
pub open spec fn lookup_in(entries: Seq<IndexEntryModel>, route: RouteLabel, station: Seq<char>) -> Option<
    TripTimetableModel,
>
    decreases entries.len(),
{
    if entries.len() == 0 {
        None
    } else if entries.last().route == route && entries.last().station == station {
        Some(entries.last().timetable)
    } else {
        lookup_in(entries.drop_last(), route, station)
    }
}

/// Whether any timetable is filed under `route`, at any station.
pub open spec fn covers_route(entries: Seq<IndexEntryModel>, route: RouteLabel) -> bool {
    exists|i: int| 0 <= i < entries.len() && (#[trigger] entries[i]).route == route
}

/// The entries that the timetables fetched for one station file: one per trip
/// timetable, group by group.
pub open spec fn entries_for_station(station: Seq<char>, groups: Seq<RouteGroupTimetable>) -> Seq<
    IndexEntryModel,
>
    decreases groups.len(),
{
    if groups.len() == 0 {
        Seq::empty()
    } else {
        entries_for_station(station, groups.drop_last()) + groups.last().trip_timetables@.map_values(
            |t: TripTimetable| IndexEntryModel { route: t.route@, station, timetable: t@ },
        )
    }
}

struct IndexEntry {
    route: BusRoute,
    station_code: StationCode,
    timetable: TripTimetable,
}

/// The per-cycle index from (route, station) to that trip's timetable at that
/// station. Filing a second timetable under the same key replaces the first.
pub struct ReconciliationIndex {
    entries: Vec<IndexEntry>,
}

impl View for ReconciliationIndex {
    type V = Seq<IndexEntryModel>;

    closed spec fn view(&self) -> Seq<IndexEntryModel> {
        self.entries@.map_values(
            |e: IndexEntry| IndexEntryModel { route: e.route@, station: e.station_code@, timetable: e.timetable@ },
        )
    }
}

impl ReconciliationIndex {
    pub fn new() -> (r: Self)
        ensures
            r@ == Seq::<IndexEntryModel>::empty(),
    {
        let r = Self { entries: Vec::new() };
        assert(r@ =~= Seq::<IndexEntryModel>::empty());
        r
    }

    fn push(&mut self, entry: IndexEntry)
        ensures
            final(self)@ == old(self)@.push(
                IndexEntryModel {
                    route: entry.route@,
                    station: entry.station_code@,
                    timetable: entry.timetable@,
                },
            ),
    {
        self.entries.push(entry);
        assert(final(self)@ =~= old(self)@.push(
            IndexEntryModel {
                route: entry.route@,
                station: entry.station_code@,
                timetable: entry.timetable@,
            },
        ));
    }

    /// Files every trip timetable fetched for one station under
    /// (its route, that station).
    pub fn record_station(&mut self, station_code: &StationCode, timetables: &Vec<RouteGroupTimetable>)
        ensures
            final(self)@ == old(self)@ + entries_for_station(station_code@, timetables@),
    {
        let mut g: usize = 0;
        while g < timetables.len()
            invariant
                g <= timetables@.len(),
                self@ == old(self)@ + entries_for_station(
                    station_code@,
                    timetables@.subrange(0, g as int),
                ),
            decreases timetables@.len() - g,
        {
            let group = &timetables[g];
            let ghost base = self@;
            let mut t: usize = 0;
            while t < group.trip_timetables.len()
                invariant
                    g < timetables@.len(),
                    *group == timetables@[g as int],
                    t <= group.trip_timetables@.len(),
                    self@ == base + group.trip_timetables@.subrange(0, t as int).map_values(
                        |tt: TripTimetable|
                            IndexEntryModel { route: tt.route@, station: station_code@, timetable: tt@ },
                    ),
                decreases group.trip_timetables@.len() - t,
            {
                let trip = &group.trip_timetables[t];
                self.push(
                    IndexEntry {
                        route: trip.route.clone(),
                        station_code: station_code.clone(),
                        timetable: trip.clone(),
                    },
                );
                proof {
                    assert(group.trip_timetables@.subrange(0, t + 1).map_values(
                        |tt: TripTimetable|
                            IndexEntryModel { route: tt.route@, station: station_code@, timetable: tt@ },
                    ) =~= group.trip_timetables@.subrange(0, t as int).map_values(
                        |tt: TripTimetable|
                            IndexEntryModel { route: tt.route@, station: station_code@, timetable: tt@ },
                    ).push(
                        IndexEntryModel {
                            route: trip.route@,
                            station: station_code@,
                            timetable: trip@,
                        },
                    ));
                }
                t = t + 1;
            }
            proof {
                let next = timetables@.subrange(0, g + 1);
                assert(next.drop_last() =~= timetables@.subrange(0, g as int));
                assert(group.trip_timetables@.subrange(0, t as int) =~= group.trip_timetables@);
                assert(self@ =~= old(self)@ + entries_for_station(station_code@, next));
            }
            g = g + 1;
        }
        assert(timetables@.subrange(0, g as int) =~= timetables@);
    }

    /// Whether any timetable is filed under `route`.
    pub fn covers(&self, route: &BusRoute) -> (r: bool)
        ensures
            r == covers_route(self@, route@),
    {
        let mut i: usize = 0;
        while i < self.entries.len()
            invariant
                i <= self.entries@.len(),
                forall|k: int| 0 <= k < i ==> (#[trigger] self@[k]).route != route@,
            decreases self.entries@.len() - i,
        {
            if self.entries[i].route.same_as(route) {
                assert(self@[i as int].route == route@);
                return true;
            }
            i = i + 1;
        }
        false
    }

    /// The timetable filed last under `(route, station_code)`, if any.
    pub fn timetable_for(&self, route: &BusRoute, station_code: &str) -> (r: Option<TripTimetable>)
        ensures
            match r {
                Some(t) => lookup_in(self@, route@, station_code@) == Some(t@),
                None => lookup_in(self@, route@, station_code@) is None,
            },
    {
        assert(self@.subrange(0, self.entries@.len() as int) =~= self@);
        self.timetable_for_prefix(route, station_code, self.entries.len())
    }

    fn timetable_for_prefix(&self, route: &BusRoute, station_code: &str, n: usize) -> (r: Option<
        TripTimetable,
    >)
        requires
            n <= self@.len(),
        ensures
            match r {
                Some(t) => lookup_in(self@.subrange(0, n as int), route@, station_code@) == Some(t@),
                None => lookup_in(self@.subrange(0, n as int), route@, station_code@) is None,
            },
    {
        let mut i: usize = n;
        while i > 0
            invariant
                i <= n <= self@.len(),
                lookup_in(self@.subrange(0, n as int), route@, station_code@) == lookup_in(
                    self@.subrange(0, i as int),
                    route@,
                    station_code@,
                ),
            decreases i,
        {
            let e = &self.entries[i - 1];
            let ghost prefix = self@.subrange(0, i as int);
            assert(prefix.last() == self@[i - 1]);
            assert(prefix.drop_last() =~= self@.subrange(0, i - 1));
            if e.route.same_as(route) && str_eq(e.station_code.as_str(), station_code) {
                return Some(e.timetable.clone());
            }
            i = i - 1;
        }
        None
    }
}

} // verus!

verus! {

/// A stop paired with the timetable it was joined with.
pub open spec fn pairs_of(v: Seq<TripStationWithTimetable>) -> Seq<(StationOnRoute, TripTimetableModel)> {
    v.map_values(|p: TripStationWithTimetable| (p.station, p.timetable@))
}

/// The stops of `route` that have a timetable in the index, each with it, in
/// route order; stops without one are left out.
pub open spec fn join_spec(
    entries: Seq<IndexEntryModel>,
    route: RouteLabel,
    stops: Seq<StationOnRoute>,
) -> Seq<(StationOnRoute, TripTimetableModel)>
    decreases stops.len(),
{
    if stops.len() == 0 {
        Seq::empty()
    } else {
        let earlier = join_spec(entries, route, stops.drop_last());
        match lookup_in(entries, route, stops.last().station_code@) {
            Some(t) => earlier.push((stops.last(), t)),
            None => earlier,
        }
    }
}

/// The elements of `v` in reverse order.
pub(crate) fn reversed<T>(v: Vec<T>) -> (r: Vec<T>)
    ensures
        r@.len() == v@.len(),
        forall|i: int| 0 <= i < v@.len() ==> r@[i] == v@[v@.len() - 1 - i],
{
    let ghost orig = v@;
    let mut v = v;
    let mut r: Vec<T> = Vec::new();
    while v.len() > 0
        invariant
            v@ == orig.subrange(0, v@.len() as int),
            r@.len() + v@.len() == orig.len(),
            forall|i: int| 0 <= i < r@.len() ==> r@[i] == orig[orig.len() - 1 - i],
        decreases v@.len(),
    {
        let x = v.pop().unwrap();
        r.push(x);
    }
    r
}

/// Pairs each stop of `route` with the route's timetable at that stop, dropping
/// the stops that have none.
pub fn join_route_stations(
    index: &ReconciliationIndex,
    route: &BusRoute,
    stations: Vec<StationOnRoute>,
) -> (r: Vec<TripStationWithTimetable>)
    ensures
        pairs_of(r@) == join_spec(index@, route@, stations@),
{
    let ghost orig = stations@;
    let mut rest = reversed(stations);
    let mut out: Vec<TripStationWithTimetable> = Vec::new();
    let ghost mut done: int = 0;
    while rest.len() > 0
        invariant
            0 <= done <= orig.len(),
            rest@.len() == orig.len() - done,
            forall|i: int| 0 <= i < rest@.len() ==> rest@[i] == orig[orig.len() - 1 - i],
            pairs_of(out@) == join_spec(index@, route@, orig.subrange(0, done)),
        decreases rest@.len(),
    {
        let stop = rest.pop().unwrap();
        assert(stop == orig[done]);
        let ghost prefix = orig.subrange(0, done + 1);
        assert(prefix.drop_last() =~= orig.subrange(0, done));
        assert(prefix.last() == stop);
        match index.timetable_for(route, stop.station_code.as_str()) {
            Some(timetable) => {
                let ghost t = timetable@;
                out.push(TripStationWithTimetable { station: stop, timetable });
                assert(pairs_of(out@) =~= join_spec(index@, route@, orig.subrange(0, done)).push(
                    (prefix.last(), t),
                ));
            },
            None => {},
        }
        proof {
            done = done + 1;
        }
    }
    assert(orig.subrange(0, done) =~= orig);
    out
}

/// A station whose timetable response was empty files nothing in the index;
/// and a station with nothing filed in the index is left out of the joined
/// stops of every route.
pub proof fn lemma_join_miss_tolerance(
    entries: Seq<IndexEntryModel>,
    station: Seq<char>,
    route: RouteLabel,
    stops: Seq<StationOnRoute>,
)
    requires
        forall|i: int| 0 <= i < entries.len() ==> (#[trigger] entries[i]).station != station,
    ensures
        entries + entries_for_station(station, Seq::empty()) == entries,
        forall|j: int|
            0 <= j < join_spec(entries, route, stops).len() ==> (#[trigger] join_spec(
                entries,
                route,
                stops,
            )[j]).0.station_code@ != station,
    decreases stops.len(),
{
    assert(entries + entries_for_station(station, Seq::empty()) =~= entries);
    if stops.len() > 0 {
        lemma_join_miss_tolerance(entries, station, route, stops.drop_last());
        let earlier = join_spec(entries, route, stops.drop_last());
        let whole = join_spec(entries, route, stops);
        match lookup_in(entries, route, stops.last().station_code@) {
            Some(t) => {
                if stops.last().station_code@ == station {
                    lemma_lookup_absent(entries, route, station);
                }
                assert(whole == earlier.push((stops.last(), t)));
                assert forall|j: int| 0 <= j < whole.len() implies (#[trigger] whole[j]).0.station_code@ != station by {
                    if j < earlier.len() {
                        assert(whole[j] == earlier[j]);
                    }
                }
            },
            None => {
                assert(whole == earlier);
            },
        }
    }
}

/// Nothing is found under a station that has nothing filed.
pub proof fn lemma_lookup_absent(entries: Seq<IndexEntryModel>, route: RouteLabel, station: Seq<char>)
    requires
        forall|i: int| 0 <= i < entries.len() ==> (#[trigger] entries[i]).station != station,
    ensures
        lookup_in(entries, route, station) is None,
    decreases entries.len(),
{
    if entries.len() > 0 {
        assert(entries.last() == entries[entries.len() - 1]);
        assert forall|i: int| 0 <= i < entries.drop_last().len() implies (#[trigger] entries.drop_last()[i]).station != station by {
            assert(entries.drop_last()[i] == entries[i]);
        }
        lemma_lookup_absent(entries.drop_last(), route, station);
    }
}

/// What the caller should fetch next, or how the cycle ended.
pub enum CycleAction {
    FetchStations,
    FetchTripsOnStation { station_code: StationCode },
    FetchTimetable { station_code: StationCode, route_groups: Vec<BaseBusRoute> },
    FetchAllRoutes,
    FetchStationsOnRoute { trip_id: TripId },
    /// All fetching is done: stamp the snapshots with [`SnapshotCycle::finish`].
    Complete,
    /// A fetch failed for good: the whole cycle is abandoned.
    Abort,
}

/// What a fetch brought back.
pub enum CycleEvent {
    Stations(Vec<StationDetails>),
    TripsOnStation(Vec<TripOnStation>),
    Timetables(Vec<RouteGroupTimetable>),
    Routes(Vec<RouteDetails>),
    /// The stops of a route; none when the endpoint listed no stops.
    StationsOnRoute(Option<Vec<StationOnRoute>>),
    /// The fetch failed after its retries.
    FetchFailed,
}

/// Where a cycle stands.
#[derive(Clone, Copy, PartialEq, Eq, Debug, Structural)]
pub enum CyclePhase {
    AwaitingStations,
    AwaitingTrips,
    AwaitingTimetable,
    AwaitingRoutes,
    AwaitingStationsOnRoute,
    Complete,
    Aborted,
}

/// One reconciliation cycle.
pub struct SnapshotCycle {
    phase: CyclePhase,
    /// Stations still to visit, the next one last.
    pending_stations: Vec<StationDetails>,
    current_station: Option<StationDetails>,
    current_trips: Option<Vec<TripOnStation>>,
    index: ReconciliationIndex,
    stations_done: Vec<StationDetailsWithBusDetailsAndTimetables>,
    /// Routes still to visit, the next one last.
    pending_routes: Vec<RouteDetails>,
    current_route: Option<RouteDetails>,
    routes_done: Vec<(RouteDetails, Vec<TripStationWithTimetable>)>,
}

/// The elements of a stack in the order they come off it (last first).
pub open spec fn popping_order<T>(stack: Seq<T>) -> Seq<T> {
    Seq::new(stack.len(), |i: int| stack[stack.len() - 1 - i])
}

/// The position of the first route in `routes` that has timetable data in the
/// index, or the length when none has.
pub open spec fn first_covered(entries: Seq<IndexEntryModel>, routes: Seq<RouteDetails>) -> nat
    decreases routes.len(),
{
    if routes.len() == 0 {
        0
    } else if covers_route(entries, routes[0].route@) {
        0
    } else {
        1 + first_covered(entries, routes.drop_first())
    }
}

/// The record of a visited station.
pub open spec fn station_record(
    station: StationDetails,
    trips: Vec<TripOnStation>,
    timetables: Vec<RouteGroupTimetable>,
) -> StationDetailsWithBusDetailsAndTimetables {
    StationDetailsWithBusDetailsAndTimetables {
        station_code: station.station_code,
        internal_station_id: station.internal_station_id,
        name: station.name,
        location: station.location,
        trips_on_station: trips,
        timetables,
    }
}

impl SnapshotCycle {
    pub closed spec fn phase(&self) -> CyclePhase {
        self.phase
    }

    /// While a station's trips or timetables are awaited, that station (and
    /// then its trips) is held; while a route's stops are awaited, that route
    /// has timetable data; every recorded route has timetable data.
    pub closed spec fn wf(&self) -> bool {
        &&& self.phase == CyclePhase::AwaitingStationsOnRoute ==> {
            &&& self.current_route is Some
            &&& covers_route(self.index@, self.current_route->0.route@)
        }
        &&& self.phase == CyclePhase::AwaitingTrips ==> self.current_station is Some
        &&& self.phase == CyclePhase::AwaitingTimetable ==> {
            &&& self.current_station is Some
            &&& self.current_trips is Some
        }
        &&& forall|i: int|
            0 <= i < self.routes_done@.len() ==> covers_route(
                self.index@,
                (#[trigger] self.routes_done@[i]).0.route@,
            )
    }

    /// The stations still to visit, in the order they will be visited.
    pub closed spec fn stations_to_visit(&self) -> Seq<StationDetails> {
        popping_order(self.pending_stations@)
    }

    /// The station being visited.
    pub closed spec fn current_station(&self) -> Option<StationDetails> {
        self.current_station
    }

    /// The trips of the station being visited, once fetched.
    pub closed spec fn current_trips(&self) -> Option<Vec<TripOnStation>> {
        self.current_trips
    }

    /// The reconciliation index built so far.
    pub closed spec fn index(&self) -> Seq<IndexEntryModel> {
        self.index@
    }

    /// The routes still to visit, in the order they will be visited.
    pub closed spec fn routes_to_visit(&self) -> Seq<RouteDetails> {
        popping_order(self.pending_routes@)
    }

    /// The route whose stops are being fetched.
    pub closed spec fn current_route(&self) -> Option<RouteDetails> {
        self.current_route
    }

    /// The routes recorded so far, each with its joined stops.
    pub closed spec fn routes_recorded(&self) -> Seq<(RouteDetails, Seq<(StationOnRoute, TripTimetableModel)>)> {
        self.routes_done@.map_values(
            |e: (RouteDetails, Vec<TripStationWithTimetable>)| (e.0, pairs_of(e.1@)),
        )
    }

    /// The stations recorded so far.
    pub closed spec fn stations_recorded(&self) -> Seq<StationDetailsWithBusDetailsAndTimetables> {
        self.stations_done@
    }

    /// The cycle went on to the first station of `queue`, asking for its
    /// trips, or to the routes when `queue` is empty.
    pub open spec fn moved_to_station(&self, r: CycleAction, queue: Seq<StationDetails>) -> bool {
        if queue.len() == 0 {
            &&& r is FetchAllRoutes
            &&& self.phase() == CyclePhase::AwaitingRoutes
        } else {
            &&& (r matches CycleAction::FetchTripsOnStation { station_code } && station_code@
                == queue[0].station_code@)
            &&& self.phase() == CyclePhase::AwaitingTrips
            &&& self.current_station() == Some(queue[0])
            &&& self.stations_to_visit() == queue.drop_first()
        }
    }

    /// The cycle went on to the first route of `queue` with timetable data
    /// in `entries`, asking for its stops, dropping the routes before it; or
    /// it completed when no route of `queue` has timetable data.
    pub open spec fn moved_to_route(
        &self,
        r: CycleAction,
        entries: Seq<IndexEntryModel>,
        queue: Seq<RouteDetails>,
    ) -> bool {
        let k = first_covered(entries, queue);
        if k >= queue.len() {
            &&& r is Complete
            &&& self.phase() == CyclePhase::Complete
            &&& self.routes_to_visit().len() == 0
        } else {
            &&& (r matches CycleAction::FetchStationsOnRoute { trip_id } && trip_id@
                == queue[k as int].trip_id@)
            &&& self.phase() == CyclePhase::AwaitingStationsOnRoute
            &&& self.current_route() == Some(queue[k as int])
            &&& self.routes_to_visit() == queue.subrange(k + 1 as int, queue.len() as int)
        }
    }

    /// A route that has no timetable in the index is not among the recorded
    /// routes: it is dropped, not emitted with empty timetables.
    pub proof fn lemma_uncovered_route_absent(&self, route: RouteLabel)
        requires
            self.wf(),
            !covers_route(self.index(), route),
        ensures
            forall|i: int|
                0 <= i < self.routes_recorded().len() ==> (#[trigger] self.routes_recorded()[i]).0.route@
                    != route,
    {
        assert forall|i: int| 0 <= i < self.routes_recorded().len() implies (
        #[trigger] self.routes_recorded()[i]).0.route@ != route by {
            assert(self.routes_recorded()[i].0 == self.routes_done@[i].0);
        }
    }

    /// A new cycle, which first needs the list of stations.
    pub fn start() -> (r: (Self, CycleAction))
        ensures
            r.0.phase() == CyclePhase::AwaitingStations,
            r.0.wf(),
            r.0.index() == Seq::<IndexEntryModel>::empty(),
            r.0.routes_recorded().len() == 0,
            r.0.stations_recorded().len() == 0,
            r.1 is FetchStations,
    {
        let cycle = Self {
            phase: CyclePhase::AwaitingStations,
            pending_stations: Vec::new(),
            current_station: None,
            current_trips: None,
            index: ReconciliationIndex::new(),
            stations_done: Vec::new(),
            pending_routes: Vec::new(),
            current_route: None,
            routes_done: Vec::new(),
        };
        (cycle, CycleAction::FetchStations)
    }

    /// Moves to the next station, or to phase 2 when none is left.
    fn next_station(&mut self) -> (r: CycleAction)
        ensures
            final(self).moved_to_station(r, old(self).stations_to_visit()),
            final(self).index == old(self).index,
            final(self).routes_done == old(self).routes_done,
            final(self).stations_done == old(self).stations_done,
            final(self).current_trips == old(self).current_trips,
            final(self).current_route == old(self).current_route,
            final(self).pending_routes == old(self).pending_routes,
    {
        let ghost queue = popping_order(self.pending_stations@);
        match self.pending_stations.pop() {
            Some(station) => {
                assert(station == queue[0]);
                assert(popping_order(self.pending_stations@) =~= queue.drop_first());
                let station_code = station.station_code.clone();
                self.current_station = Some(station);
                self.phase = CyclePhase::AwaitingTrips;
                CycleAction::FetchTripsOnStation { station_code }
            },
            None => {
                self.current_station = None;
                self.phase = CyclePhase::AwaitingRoutes;
                CycleAction::FetchAllRoutes
            },
        }
    }

    /// Moves to the next route that has timetable data, dropping the routes
    /// before it that have none; completes the cycle when none is left.
    fn next_route(&mut self) -> (r: CycleAction)
        ensures
            final(self).moved_to_route(r, old(self).index@, old(self).routes_to_visit()),
            final(self).index == old(self).index,
            final(self).routes_done == old(self).routes_done,
            final(self).stations_done == old(self).stations_done,
            r is FetchStationsOnRoute ==> covers_route(
                final(self).index@,
                final(self).current_route->0.route@,
            ),
    {
        let ghost queue = popping_order(self.pending_routes@);
        let ghost entries = self.index@;
        let ghost mut j: int = 0;
        loop
            invariant
                self.index == old(self).index,
                entries == self.index@,
                self.routes_done == old(self).routes_done,
                self.stations_done == old(self).stations_done,
                queue == old(self).routes_to_visit(),
                0 <= j <= queue.len(),
                popping_order(self.pending_routes@) == queue.subrange(j, queue.len() as int),
                first_covered(entries, queue) == j + first_covered(
                    entries,
                    queue.subrange(j, queue.len() as int),
                ),
            decreases self.pending_routes@.len(),
        {
            let ghost cur = queue.subrange(j, queue.len() as int);
            let ghost stack = self.pending_routes@;
            assert(stack.len() == cur.len());
            match self.pending_routes.pop() {
                None => {
                    self.current_route = None;
                    self.phase = CyclePhase::Complete;
                    assert(cur.len() == 0);
                    return CycleAction::Complete;
                },
                Some(route) => {
                    assert(route == stack[stack.len() - 1]);
                    assert(route == cur[0]);
                    assert(self.pending_routes@ =~= stack.drop_last());
                    assert forall|i: int|
                        0 <= i < cur.len() - 1 implies #[trigger] popping_order(self.pending_routes@)[i]
                            == cur[i + 1] by {
                        assert(popping_order(stack)[i + 1] == cur[i + 1]);
                    }
                    assert(popping_order(self.pending_routes@) =~= queue.subrange(
                        j + 1,
                        queue.len() as int,
                    ));
                    assert(cur.drop_first() =~= queue.subrange(j + 1, queue.len() as int));
                    if self.index.covers(&route.route) {
                        let trip_id = route.trip_id.clone();
                        self.current_route = Some(route);
                        self.phase = CyclePhase::AwaitingStationsOnRoute;
                        return CycleAction::FetchStationsOnRoute { trip_id };
                    }
                    proof {
                        j = j + 1;
                    }
                },
            }
        }
    }

    fn abort(&mut self) -> (r: CycleAction)
        ensures
            final(self).phase == CyclePhase::Aborted,
            final(self).index == old(self).index,
            final(self).routes_done == old(self).routes_done,
            final(self).stations_done == old(self).stations_done,
            final(self).current_route == old(self).current_route,
            r is Abort,
    {
        self.phase = CyclePhase::Aborted;
        CycleAction::Abort
    }

    /// Whether `event` is the response the cycle is waiting for.
    pub open spec fn expects(&self, event: CycleEvent) -> bool {
        ||| self.phase() == CyclePhase::AwaitingStations && event is Stations
        ||| self.phase() == CyclePhase::AwaitingTrips && event is TripsOnStation
        ||| self.phase() == CyclePhase::AwaitingTimetable && event is Timetables
        ||| self.phase() == CyclePhase::AwaitingRoutes && event is Routes
        ||| self.phase() == CyclePhase::AwaitingStationsOnRoute && event is StationsOnRoute
    }

    /// Takes what the last fetch brought back and says what to fetch next.
    ///
    /// The stations are visited in the order fetched. A station without trips
    /// is skipped without a timetable request; otherwise one timetable request
    /// covers the distinct route groups of its trips, its timetables are filed
    /// in the index under (route, station) and the station is recorded with its
    /// trips and timetables. Then the routes are visited in the order fetched:
    /// a route with no timetable in the index is dropped without fetching its
    /// stops, and so is a route whose stops come back empty; any other route
    /// is recorded with its stops joined against the index. A failed fetch,
    /// or a response the cycle is not waiting for, abandons the cycle.
    pub fn handle(&mut self, event: CycleEvent) -> (r: CycleAction)
        requires
            old(self).wf(),
        ensures
            final(self).wf(),
            !old(self).expects(event) ==> {
                &&& r is Abort
                &&& final(self).phase() == CyclePhase::Aborted
                &&& final(self).index() == old(self).index()
                &&& final(self).stations_recorded() == old(self).stations_recorded()
                &&& final(self).routes_recorded() == old(self).routes_recorded()
            },
            old(self).phase() == CyclePhase::AwaitingStations ==> (event matches CycleEvent::Stations(
                stations,
            ) ==> {
                &&& final(self).moved_to_station(r, stations@)
                &&& final(self).index() == old(self).index()
                &&& final(self).stations_recorded() == old(self).stations_recorded()
                &&& final(self).routes_recorded() == old(self).routes_recorded()
            }),
            old(self).phase() == CyclePhase::AwaitingTrips ==> (event matches CycleEvent::TripsOnStation(
                trips,
            ) ==> {
                &&& final(self).index() == old(self).index()
                &&& final(self).stations_recorded() == old(self).stations_recorded()
                &&& final(self).routes_recorded() == old(self).routes_recorded()
                &&& trips@.len() == 0 ==> final(self).moved_to_station(r, old(self).stations_to_visit())
                &&& trips@.len() > 0 ==> {
                    &&& (r matches CycleAction::FetchTimetable { station_code, route_groups }
                        && station_code@ == old(self).current_station()->0.station_code@
                        && numbers_of(route_groups@) == group_numbers(trips@))
                    &&& final(self).phase() == CyclePhase::AwaitingTimetable
                    &&& final(self).current_station() == old(self).current_station()
                    &&& final(self).current_trips() == Some(trips)
                    &&& final(self).stations_to_visit() == old(self).stations_to_visit()
                }
            }),
            old(self).phase() == CyclePhase::AwaitingTimetable ==> (event matches CycleEvent::Timetables(
                timetables,
            ) ==> {
                &&& final(self).index() == old(self).index() + entries_for_station(
                    old(self).current_station()->0.station_code@,
                    timetables@,
                )
                &&& final(self).stations_recorded() == old(self).stations_recorded().push(
                    station_record(
                        old(self).current_station()->0,
                        old(self).current_trips()->0,
                        timetables,
                    ),
                )
                &&& final(self).routes_recorded() == old(self).routes_recorded()
                &&& final(self).moved_to_station(r, old(self).stations_to_visit())
            }),
            old(self).phase() == CyclePhase::AwaitingRoutes ==> (event matches CycleEvent::Routes(
                routes,
            ) ==> {
                &&& final(self).index() == old(self).index()
                &&& final(self).stations_recorded() == old(self).stations_recorded()
                &&& final(self).routes_recorded() == old(self).routes_recorded()
                &&& final(self).moved_to_route(r, old(self).index(), routes@)
            }),
            old(self).phase() == CyclePhase::AwaitingStationsOnRoute ==> (
            event matches CycleEvent::StationsOnRoute(stops) ==> {
                let route = old(self).current_route()->0;
                &&& final(self).index() == old(self).index()
                &&& final(self).stations_recorded() == old(self).stations_recorded()
                &&& final(self).routes_recorded() == match stops {
                    Some(stops) => old(self).routes_recorded().push(
                        (route, join_spec(old(self).index(), route.route@, stops@)),
                    ),
                    None => old(self).routes_recorded(),
                }
                &&& final(self).moved_to_route(r, old(self).index(), old(self).routes_to_visit())
            }),
    {
        proof {
            if !old(self).expects(event) {
                assert(event is FetchFailed || self.phase != CyclePhase::AwaitingStations || !(event is Stations));
            }
        }
        match event {
            CycleEvent::FetchFailed => self.abort(),
            CycleEvent::Stations(stations) => {
                if self.phase != CyclePhase::AwaitingStations {
                    return self.abort();
                }
                let ghost list = stations@;
                self.pending_stations = reversed(stations);
                assert(popping_order(self.pending_stations@) =~= list);
                self.next_station()
            },
            CycleEvent::TripsOnStation(trips) => {
                if self.phase != CyclePhase::AwaitingTrips {
                    return self.abort();
                }
                let route_groups = route_groups_of(&trips);
                proof {
                    lemma_group_numbers_empty(trips@);
                }
                if route_groups.len() == 0 {
                    return self.next_station();
                }
                let station_code = match &self.current_station {
                    Some(station) => station.station_code.clone(),
                    None => {
                        return self.abort();
                    },
                };
                self.current_trips = Some(trips);
                self.phase = CyclePhase::AwaitingTimetable;
                CycleAction::FetchTimetable { station_code, route_groups }
            },
            CycleEvent::Timetables(timetables) => {
                if self.phase != CyclePhase::AwaitingTimetable {
                    return self.abort();
                }
                let station = self.current_station.take().unwrap();
                let trips = self.current_trips.take().unwrap();
                let ghost before = self.index@;
                self.index.record_station(&station.station_code, &timetables);
                proof {
                    assert forall|i: int| 0 <= i < self.routes_done@.len() implies covers_route(
                        self.index@,
                        (#[trigger] self.routes_done@[i]).0.route@,
                    ) by {
                        let w = choose|w: int| 0 <= w < before.len() && (#[trigger] before[w]).route
                            == self.routes_done@[i].0.route@;
                        assert(self.index@[w] == before[w]);
                    }
                }
                let ghost record = station_record(station, trips, timetables);
                self.stations_done.push(
                    StationDetailsWithBusDetailsAndTimetables::from_station_and_trips(
                        station,
                        trips,
                        timetables,
                    ),
                );
                assert(self.stations_done@.last() == record);
                assert(self.stations_done@ =~= old(self).stations_done@.push(record));
                self.next_station()
            },
            CycleEvent::Routes(routes) => {
                if self.phase != CyclePhase::AwaitingRoutes {
                    return self.abort();
                }
                let ghost list = routes@;
                self.pending_routes = reversed(routes);
                assert(popping_order(self.pending_routes@) =~= list);
                self.next_route()
            },
            CycleEvent::StationsOnRoute(stops) => {
                if self.phase != CyclePhase::AwaitingStationsOnRoute {
                    return self.abort();
                }
                let route = self.current_route.take().unwrap();
                assert(covers_route(self.index@, route.route@));
                match stops {
                    Some(stops) => {
                        let ghost before = self.routes_recorded();
                        let ghost joined_spec = join_spec(self.index@, route.route@, stops@);
                        let joined = join_route_stations(&self.index, &route.route, stops);
                        let ghost entry = (route, pairs_of(joined@));
                        self.routes_done.push((route, joined));
                        assert(self.routes_done@[self.routes_done@.len() - 1].0 == entry.0);
                        assert(self.routes_recorded() =~= before.push(entry));
                        assert(entry.1 == joined_spec);
                    },
                    None => {},
                }
                self.next_route()
            },
        }
    }

    /// Stamps both snapshots of the cycle with the one capture time.
    pub fn finish(self, captured_at: CaptureTime) -> (r: (AllStationsSnapshot, AllRoutesSnapshot))
        ensures
            r.0.captured_at == captured_at,
            r.1.captured_at == captured_at,
            r.0.station_details@ == self.stations_recorded(),
            r.1.routes@.len() == self.routes_recorded().len(),
            forall|i: int|
                0 <= i < r.1.routes@.len() ==> {
                    &&& (#[trigger] r.1.routes@[i]).captured_at == captured_at
                    &&& r.1.routes@[i].route_details == self.routes_recorded()[i].0
                    &&& pairs_of(r.1.routes@[i].stations_on_route_with_timetables@)
                        == self.routes_recorded()[i].1
                },
    {
        let ghost recorded = self.routes_recorded();
        let ghost orig = self.routes_done@;
        let mut rest = reversed(self.routes_done);
        let mut routes: Vec<TripWithStationsAndTimetables> = Vec::new();
        while rest.len() > 0
            invariant
                recorded == orig.map_values(
                    |e: (RouteDetails, Vec<TripStationWithTimetable>)| (e.0, pairs_of(e.1@)),
                ),
                routes@.len() + rest@.len() == orig.len(),
                forall|i: int| 0 <= i < rest@.len() ==> rest@[i] == orig[orig.len() - 1 - i],
                forall|i: int|
                    0 <= i < routes@.len() ==> {
                        &&& (#[trigger] routes@[i]).captured_at == captured_at
                        &&& routes@[i].route_details == recorded[i].0
                        &&& pairs_of(routes@[i].stations_on_route_with_timetables@) == recorded[i].1
                    },
            decreases rest@.len(),
        {
            let ghost k = routes@.len() as int;
            let (route_details, stations_on_route_with_timetables) = rest.pop().unwrap();
            assert(orig[k] == (route_details, stations_on_route_with_timetables));
            routes.push(
                TripWithStationsAndTimetables {
                    captured_at,
                    route_details,
                    stations_on_route_with_timetables,
                },
            );
        }
        (
            AllStationsSnapshot::new(captured_at, self.stations_done),
            AllRoutesSnapshot::new(captured_at, routes),
        )
    }
}

} // verus!
