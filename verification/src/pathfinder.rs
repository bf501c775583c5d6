//! Model of the planning engine's externally visible state.
//!
//! The engine holds the flyzone polygons and the obstacle list, and each
//! adjust-path call mutates its internal search state in place. The
//! geometric search itself is an external collaborator; the library tracks
//! what the service relies on: which geometry was installed and which pose
//! the last completed adjust-path call applied.

use vstd::prelude::*;

verus! {

/// A point of the planning frame. Coordinates are fixed-point geodetic
/// degrees, scaled so that one unit is a microdegree.
#[derive(Clone, Copy, Debug, PartialEq, Eq, Structural)]
pub struct Point {
    pub lat: i64,
    pub lon: i64,
}

impl Point {
    /// The planning frame keeps the geodetic coordinates of a boundary
    /// point unchanged; projection is the engine's own concern.
    pub fn from_degrees(lat: i64, lon: i64) -> (p: Point)
        ensures
            p.lat == lat,
            p.lon == lon,
    {
        Point { lat, lon }
    }
}

/// The vehicle pose a replan starts from: position and altitude above
/// mean sea level, in the same fixed-point units as `Point`.
#[derive(Clone, Copy, Debug, PartialEq, Eq, Structural)]
pub struct Pose {
    pub lat: i64,
    pub lon: i64,
    pub alt_msl: i64,
}

/// A stationary obstacle as the engine holds it.
#[derive(Clone, Copy, Debug, PartialEq, Eq, Structural)]
pub struct Obstacle {
    pub coords: Point,
    pub radius: i64,
    pub height: i64,
}

/// One node of a computed route.
#[derive(Clone, Copy, Debug, PartialEq, Eq, Structural)]
pub struct Waypoint {
    pub lat: i64,
    pub lon: i64,
}

/// The engine's answer to one adjust-path call. "No path" is a legitimate
/// result, distinct both from a route and from any request failure.
#[derive(Clone, Debug, PartialEq, Eq)]
pub enum PlanOutcome {
    Path(Vec<Waypoint>),
    NoPath,
}

/// How a search result handed back by the geometric engine is classified.
pub open spec fn outcome_of(search: Option<Vec<Waypoint>>) -> PlanOutcome {
    match search {
        Some(route) => PlanOutcome::Path(route),
        None => PlanOutcome::NoPath,
    }
}

/// The planning engine's externally visible state: the geometry installed
/// at initialization, the fixed positional tolerance it was built with,
/// and the pose of the last completed adjust-path call, which stands for
/// the in-place mutation of the engine's search state.
#[derive(Clone, Debug, PartialEq, Eq)]
pub struct PathFinder {
    pub tolerance: i64,
    pub flyzones: Vec<Vec<Point>>,
    pub obstacles: Vec<Obstacle>,
    pub last_adjust: Option<Pose>,
}

/// The state an engine reaches when one adjust-path call for `pose`
/// completes: the geometry is untouched and the applied pose is recorded.
pub open spec fn spec_adjust(pf: PathFinder, pose: Pose) -> PathFinder {
    PathFinder {
        tolerance: pf.tolerance,
        flyzones: pf.flyzones,
        obstacles: pf.obstacles,
        last_adjust: Some(pose),
    }
}

impl PathFinder {
    /// A fresh engine: the given flyzones, no obstacles, no adjust-path
    /// call applied yet.
    pub fn new(tolerance: i64, flyzones: Vec<Vec<Point>>) -> (pf: PathFinder)
        ensures
            pf.tolerance == tolerance,
            pf.flyzones == flyzones,
            pf.obstacles@ == Seq::<Obstacle>::empty(),
            pf.last_adjust is None,
    {
        PathFinder { tolerance, flyzones, obstacles: Vec::new(), last_adjust: None }
    }

    /// Installs the obstacle list, replacing whatever was held before.
    pub fn set_obstacle_list(&mut self, obstacle_list: Vec<Obstacle>)
        ensures
            final(self).tolerance == old(self).tolerance,
            final(self).flyzones == old(self).flyzones,
            final(self).obstacles == obstacle_list,
            final(self).last_adjust == old(self).last_adjust,
    {
        self.obstacles = obstacle_list;
    }

    /// Applies one adjust-path call: records the pose the search started
    /// from and classifies the search result. The geometric search is the
    /// external engine's work and arrives here as a plain event.
    pub fn adjust_path(&mut self, pose: Pose, search: Option<Vec<Waypoint>>) -> (r: PlanOutcome)
        ensures
            *final(self) == spec_adjust(*old(self), pose),
            r == outcome_of(search),
    {
        self.last_adjust = Some(pose);
        match search {
            Some(route) => PlanOutcome::Path(route),
            None => PlanOutcome::NoPath,
        }
    }
}

/// Two adjust-path calls applied one after the other leave the engine in
/// the state of a single call with the later pose: the geometry is never
/// touched and the last-applied pose wins. Together with the
/// exclusive-access discipline of the replanning service, which refuses a
/// second in-flight call outright, this is why concurrent replan requests
/// can never interleave mutations: every reachable engine state is a
/// serial composition of completed calls.
pub proof fn lemma_adjust_serializes(pf: PathFinder, first: Pose, second: Pose)
    ensures
        spec_adjust(spec_adjust(pf, first), second) == spec_adjust(pf, second),
        spec_adjust(spec_adjust(pf, first), second).last_adjust == Some(second),
        spec_adjust(spec_adjust(pf, first), second).flyzones == pf.flyzones,
        spec_adjust(spec_adjust(pf, first), second).obstacles == pf.obstacles,
{
}

} // verus!
