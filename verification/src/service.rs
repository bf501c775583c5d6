//! The replanning service: owns the planning-engine lifecycle and
//! mediates every interaction with it.
//!
//! The service is constructed with the two upstream base addresses, is
//! initialized exactly once from the mission and obstacle payloads, and
//! thereafter answers replan requests. Upstream fetches are performed by
//! the caller (they are blocking network work); their results enter here
//! as plain values, so every decision the service takes is verified for
//! every possible fetch outcome.

use vstd::prelude::*;
use vstd::string::*;
use crate::messages::{GeoPoint, InteropMission, InteropTelem, Obstacles, StationaryObstacle};
use crate::messages::pose_of;
use crate::pathfinder::{outcome_of, spec_adjust, Obstacle, PathFinder, PlanOutcome, Point, Pose, Waypoint};

verus! {

/// Fewest boundary points that close a flyzone polygon.
pub const MIN_FLYZONE_POINTS: usize = 3;

/// The fixed positional tolerance the engine is constructed with.
pub const PATH_TOLERANCE: i64 = 1;

/// Why an upstream fetch failed: the connection or its timeout, or a body
/// that does not match the expected schema.
#[derive(Clone, Copy, Debug, PartialEq, Eq, Structural)]
pub enum FetchError {
    Transport,
    Decode,
}

/// Why initialization was refused: the mission payload is malformed, one
/// of its fly zones having too few boundary points to close a polygon.
#[derive(Clone, Copy, Debug, PartialEq, Eq, Structural)]
pub enum InitError {
    InvalidFlyzone,
}

/// Why a replan request failed. A precondition violation is distinct from
/// an upstream failure, and a conflicting in-flight call is aborted
/// loudly rather than allowed to interleave engine mutations.
#[derive(Clone, Copy, Debug, PartialEq, Eq, Structural)]
pub enum ReplanError {
    NotReady,
    Busy,
    Fetch(FetchError),
}

/// How a geodetic boundary point enters the planning frame.
pub open spec fn point_from_geo(g: GeoPoint) -> Point {
    Point { lat: g.lat, lon: g.lon }
}

/// How a reported stationary obstacle enters the planning frame.
pub open spec fn obstacle_from_stationary(o: StationaryObstacle) -> Obstacle {
    Obstacle { coords: Point { lat: o.pos.lat, lon: o.pos.lon }, radius: o.radius, height: o.height }
}

/// A mission is well formed when every fly zone closes a polygon.
pub open spec fn mission_is_valid(m: InteropMission) -> bool {
    forall|i: int|
        0 <= i < m.fly_zones@.len() ==> #[trigger] m.fly_zones@[i].boundary@.len()
            >= MIN_FLYZONE_POINTS
}

/// The converted flyzones mirror the mission exactly: one polygon per fly
/// zone, with the same point count and the same point order (and so the
/// same winding) as the input boundary.
pub open spec fn flyzones_match(zones: Seq<Vec<Point>>, m: InteropMission) -> bool {
    &&& zones.len() == m.fly_zones@.len()
    &&& forall|i: int|
        0 <= i < zones.len() ==> #[trigger] zones[i]@.len() == m.fly_zones@[i].boundary@.len()
    &&& forall|i: int, j: int|
        0 <= i < zones.len() && 0 <= j < zones[i]@.len() ==> #[trigger] zones[i]@[j]
            == point_from_geo(m.fly_zones@[i].boundary@[j])
}

/// The converted obstacle list mirrors the payload element for element.
pub open spec fn obstacles_match(list: Seq<Obstacle>, raw: Obstacles) -> bool {
    &&& list.len() == raw.stationary@.len()
    &&& forall|i: int|
        0 <= i < list.len() ==> #[trigger] list[i] == obstacle_from_stationary(raw.stationary@[i])
}

/// Converts the mission's geodetic fly-zone boundaries into the planning
/// frame, keeping every zone's point count and point order.
pub fn flyzones_from_mission(mission: &InteropMission) -> (zones: Vec<Vec<Point>>)
    ensures
        flyzones_match(zones@, *mission),
{
    let mut zones: Vec<Vec<Point>> = Vec::new();
    let mut i: usize = 0;
    while i < mission.fly_zones.len()
        invariant
            i <= mission.fly_zones@.len(),
            zones@.len() == i,
            forall|k: int|
                0 <= k < i ==> #[trigger] zones@[k]@.len() == mission.fly_zones@[k].boundary@.len(),
            forall|k: int, j: int|
                0 <= k < i && 0 <= j < zones@[k]@.len() ==> #[trigger] zones@[k]@[j]
                    == point_from_geo(mission.fly_zones@[k].boundary@[j]),
        decreases mission.fly_zones@.len() - i,
    {
        let boundary = &mission.fly_zones[i].boundary;
        let mut zone: Vec<Point> = Vec::new();
        let mut j: usize = 0;
        while j < boundary.len()
            invariant
                j <= boundary@.len(),
                zone@.len() == j,
                forall|t: int|
                    0 <= t < j ==> #[trigger] zone@[t] == point_from_geo(boundary@[t]),
            decreases boundary@.len() - j,
        {
            zone.push(Point::from_degrees(boundary[j].lat, boundary[j].lon));
            j += 1;
        }
        zones.push(zone);
        i += 1;
    }
    zones
}

/// Converts the raw stationary-obstacle list into the planning frame,
/// element for element.
pub fn obstacles_from_raw(raw: &Obstacles) -> (list: Vec<Obstacle>)
    ensures
        obstacles_match(list@, *raw),
{
    let mut list: Vec<Obstacle> = Vec::new();
    let mut i: usize = 0;
    while i < raw.stationary.len()
        invariant
            i <= raw.stationary@.len(),
            list@.len() == i,
            forall|k: int|
                0 <= k < i ==> #[trigger] list@[k] == obstacle_from_stationary(raw.stationary@[k]),
        decreases raw.stationary@.len() - i,
    {
        let source = &raw.stationary[i];
        list.push(
            Obstacle {
                coords: Point::from_degrees(source.pos.lat, source.pos.lon),
                radius: source.radius,
                height: source.height,
            },
        );
        i += 1;
    }
    list
}

/// The telemetry service's address when none is configured.
pub fn default_telemetry_url() -> (s: &'static str)
    ensures
        s@ == "0.0.0.0:5000"@,
{
    "0.0.0.0:5000"
}

/// The interop proxy's address when none is configured.
pub fn default_interop_proxy_url() -> (s: &'static str)
    ensures
        s@ == "0.0.0.0:8000"@,
{
    "0.0.0.0:8000"
}

/// The replanning service: the two upstream base addresses, fixed at
/// construction, and the one long-lived planning-engine instance,
/// installed exactly once. While an adjust-path call is in flight the
/// engine is held exclusively, marked by `adjusting`.
#[derive(Clone, Debug)]
pub struct Autopilot {
    pub telemetry_host: String,
    pub interop_proxy_host: String,
    pub pathfinder: Option<PathFinder>,
    pub adjusting: bool,
}

/// The service state after one successful replan for `pose`: the engine
/// has that adjust-path call applied and everything else is untouched.
pub open spec fn spec_replan(s: Autopilot, pose: Pose) -> Autopilot {
    Autopilot {
        telemetry_host: s.telemetry_host,
        interop_proxy_host: s.interop_proxy_host,
        pathfinder: Some(spec_adjust(s.pathfinder->Some_0, pose)),
        adjusting: s.adjusting,
    }
}

impl Autopilot {
    /// Exclusive access to the engine is only ever held once the engine
    /// exists.
    pub open spec fn wf(self) -> bool {
        self.adjusting ==> self.pathfinder is Some
    }

    /// The service is `Ready` once the engine has been installed; it
    /// cannot answer replan requests before that.
    pub open spec fn ready(self) -> bool {
        self.pathfinder is Some
    }

    /// A fresh, uninitialized service talking to the two given upstream
    /// addresses.
    pub fn new(telemetry_url: String, interop_proxy_url: String) -> (a: Autopilot)
        ensures
            a.wf(),
            !a.ready(),
            !a.adjusting,
            a.telemetry_host@ == "http://"@ + telemetry_url@,
            a.interop_proxy_host@ == "http://"@ + interop_proxy_url@,
    {
        Autopilot {
            telemetry_host: String::from_str("http://").concat(telemetry_url.as_str()),
            interop_proxy_host: String::from_str("http://").concat(interop_proxy_url.as_str()),
            pathfinder: None,
            adjusting: false,
        }
    }

    /// Where the current telemetry is fetched from: the telemetry base
    /// address with its fixed path appended.
    pub fn telemetry_url(&self) -> (u: String)
        ensures
            u@ == self.telemetry_host@ + "/api/interop-telem"@,
    {
        self.telemetry_host.clone().concat("/api/interop-telem")
    }

    /// Where the mission geometry is fetched from: the interop base
    /// address with its fixed path appended.
    pub fn mission_url(&self) -> (u: String)
        ensures
            u@ == self.interop_proxy_host@ + "/api/mission"@,
    {
        self.interop_proxy_host.clone().concat("/api/mission")
    }

    /// Where the obstacle list is fetched from: the interop base address
    /// with its fixed path appended.
    pub fn obstacles_url(&self) -> (u: String)
        ensures
            u@ == self.interop_proxy_host@ + "/api/obstacles"@,
    {
        self.interop_proxy_host.clone().concat("/api/obstacles")
    }

    /// Whether the service has reached `Ready`.
    pub fn is_ready(&self) -> (r: bool)
        ensures
            r == self.ready(),
    {
        match &self.pathfinder {
            Some(_) => true,
            None => false,
        }
    }

    /// Whether an adjust-path call currently holds the engine.
    pub fn is_adjusting(&self) -> (r: bool)
        ensures
            r == self.adjusting,
    {
        self.adjusting
    }

    /// Seeds the engine once from the decoded mission and obstacle
    /// payloads: the fly zones are converted with point count and winding
    /// kept, the engine is built with the fixed tolerance, and the
    /// obstacle list is installed. A mission with a fly zone of fewer
    /// than three boundary points is malformed and refused, the service
    /// left untouched; at startup such a refusal is fatal.
    ///
    /// The obstacle list is installed here and deliberately never
    /// refreshed afterward: obstacles are taken as static for the
    /// mission, a known limitation of this design.
    pub fn initialize(&mut self, mission: &InteropMission, obstacles: &Obstacles) -> (r: Result<
        (),
        InitError,
    >)
        requires
            old(self).wf(),
            !old(self).ready(),
        ensures
            final(self).wf(),
            final(self).telemetry_host == old(self).telemetry_host,
            final(self).interop_proxy_host == old(self).interop_proxy_host,
            r is Ok <==> mission_is_valid(*mission),
            r is Err ==> r == Err::<(), InitError>(InitError::InvalidFlyzone) && *final(self)
                == *old(self),
            r is Ok ==> {
                &&& final(self).ready()
                &&& !final(self).adjusting
                &&& flyzones_match(final(self).pathfinder->Some_0.flyzones@, *mission)
                &&& obstacles_match(final(self).pathfinder->Some_0.obstacles@, *obstacles)
                &&& final(self).pathfinder->Some_0.tolerance == PATH_TOLERANCE
                &&& final(self).pathfinder->Some_0.last_adjust is None
            },
    {
        let mut i: usize = 0;
        while i < mission.fly_zones.len()
            invariant
                i <= mission.fly_zones@.len(),
                *self == *old(self),
                old(self).wf(),
                !old(self).ready(),
                forall|k: int|
                    0 <= k < i ==> #[trigger] mission.fly_zones@[k].boundary@.len()
                        >= MIN_FLYZONE_POINTS,
            decreases mission.fly_zones@.len() - i,
        {
            if mission.fly_zones[i].boundary.len() < MIN_FLYZONE_POINTS {
                return Err(InitError::InvalidFlyzone);
            }
            i += 1;
        }
        let flyzones = flyzones_from_mission(mission);
        let mut pathfinder = PathFinder::new(PATH_TOLERANCE, flyzones);
        let obstacle_list = obstacles_from_raw(obstacles);
        pathfinder.set_obstacle_list(obstacle_list);
        self.pathfinder = Some(pathfinder);
        Ok(())
    }

    /// The precondition gate of a replan request: a request that arrives
    /// before the service is `Ready` is refused with a precondition
    /// error, distinct from any upstream failure.
    pub fn replan_precheck(&self) -> (r: Result<(), ReplanError>)
        ensures
            r is Ok <==> self.ready(),
            r is Err ==> r == Err::<(), ReplanError>(ReplanError::NotReady),
    {
        if self.is_ready() {
            Ok(())
        } else {
            Err(ReplanError::NotReady)
        }
    }

    /// Acquires exclusive access to the engine for one adjust-path call.
    /// A conflicting acquisition while another call is in flight is a
    /// contract violation and fails loudly, leaving the service
    /// untouched; it is never allowed to interleave with the holder.
    pub fn begin_adjust(&mut self) -> (r: Result<(), ReplanError>)
        requires
            old(self).wf(),
        ensures
            final(self).wf(),
            !old(self).ready() ==> r == Err::<(), ReplanError>(ReplanError::NotReady)
                && *final(self) == *old(self),
            old(self).ready() && old(self).adjusting ==> r == Err::<(), ReplanError>(
                ReplanError::Busy,
            ) && *final(self) == *old(self),
            old(self).ready() && !old(self).adjusting ==> r == Ok::<(), ReplanError>(())
                && *final(self) == (Autopilot {
                adjusting: true,
                telemetry_host: old(self).telemetry_host,
                interop_proxy_host: old(self).interop_proxy_host,
                pathfinder: old(self).pathfinder,
            }),
    {
        if !self.is_ready() {
            return Err(ReplanError::NotReady);
        }
        if self.adjusting {
            return Err(ReplanError::Busy);
        }
        self.adjusting = true;
        Ok(())
    }

    /// Completes the adjust-path call that currently holds the engine:
    /// applies the pose, classifies the search result handed back by the
    /// geometric engine, and releases exclusive access. The installed
    /// geometry is never touched.
    pub fn finish_adjust(&mut self, pose: Pose, search: Option<Vec<Waypoint>>) -> (r: PlanOutcome)
        requires
            old(self).wf(),
            old(self).adjusting,
        ensures
            final(self).wf(),
            !final(self).adjusting,
            final(self).telemetry_host == old(self).telemetry_host,
            final(self).interop_proxy_host == old(self).interop_proxy_host,
            final(self).pathfinder is Some,
            final(self).pathfinder->Some_0 == spec_adjust(old(self).pathfinder->Some_0, pose),
            r == outcome_of(search),
    {
        let outcome: PlanOutcome;
        match &mut self.pathfinder {
            Some(pf) => {
                outcome = pf.adjust_path(pose, search);
            },
            None => {
                // Unreachable: exclusive access is only held over an
                // installed engine.
                outcome = PlanOutcome::NoPath;
            },
        }
        self.adjusting = false;
        outcome
    }

    /// One whole replan request, decided over the telemetry-fetch outcome
    /// and the engine's search result. In order: a service that is not
    /// `Ready` refuses with the precondition error; a failed fetch is a
    /// request failure that leaves the engine untouched; a conflicting
    /// in-flight call is aborted loudly; otherwise the pose from the
    /// telemetry is applied and the outcome — a route or an explicit
    /// "no path" — is returned as a success either way.
    pub fn complete_replan(
        &mut self,
        fetched: Result<InteropTelem, FetchError>,
        search: Option<Vec<Waypoint>>,
    ) -> (r: Result<PlanOutcome, ReplanError>)
        requires
            old(self).wf(),
        ensures
            final(self).wf(),
            !old(self).ready() ==> r == Err::<PlanOutcome, ReplanError>(ReplanError::NotReady)
                && *final(self) == *old(self),
            old(self).ready() && fetched is Err ==> r == Err::<PlanOutcome, ReplanError>(
                ReplanError::Fetch(fetched->Err_0),
            ) && *final(self) == *old(self),
            old(self).ready() && fetched is Ok && old(self).adjusting ==> r == Err::<
                PlanOutcome,
                ReplanError,
            >(ReplanError::Busy) && *final(self) == *old(self),
            old(self).ready() && fetched is Ok && !old(self).adjusting ==> r == Ok::<
                PlanOutcome,
                ReplanError,
            >(outcome_of(search)) && *final(self) == spec_replan(*old(self), pose_of(fetched->Ok_0)),
    {
        if let Err(e) = self.replan_precheck() {
            return Err(e);
        }
        let telemetry = match fetched {
            Ok(t) => t,
            Err(e) => {
                return Err(ReplanError::Fetch(e));
            },
        };
        if let Err(e) = self.begin_adjust() {
            return Err(e);
        }
        let pose = telemetry.pose();
        let outcome = self.finish_adjust(pose, search);
        Ok(outcome)
    }
}

/// Independent replan requests carry no ordering guarantee beyond mutual
/// exclusion on the engine: two requests completed one after the other
/// leave the service exactly as the later one alone would have left it —
/// the last-applied pose wins and the installed geometry is untouched.
pub proof fn lemma_replans_serialize(s: Autopilot, first: Pose, second: Pose)
    requires
        s.ready(),
    ensures
        spec_replan(spec_replan(s, first), second) == spec_replan(s, second),
        spec_replan(spec_replan(s, first), second).pathfinder->Some_0.last_adjust == Some(second),
{
}

} // verus!
