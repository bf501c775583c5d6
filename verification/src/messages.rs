//! The abstract shapes of the upstream payloads.
//!
//! The mission, obstacle and telemetry services speak a wire format whose
//! decoding is an external collaborator's work; what reaches the library
//! are the decoded shapes below, as plain values.

use vstd::prelude::*;
use crate::pathfinder::Pose;

verus! {

/// A geodetic boundary point of a mission fly zone, in fixed-point
/// degrees (one unit is a microdegree).
#[derive(Clone, Copy, Debug, PartialEq, Eq, Structural)]
pub struct GeoPoint {
    pub lat: i64,
    pub lon: i64,
}

/// One fly zone of the mission: the ordered boundary of a closed polygon.
#[derive(Clone, Debug, PartialEq, Eq)]
pub struct FlyZone {
    pub boundary: Vec<GeoPoint>,
}

/// The mission payload: the fly zones the vehicle must stay within.
#[derive(Clone, Debug, PartialEq, Eq)]
pub struct InteropMission {
    pub fly_zones: Vec<FlyZone>,
}

/// One stationary obstacle as the obstacle service reports it.
#[derive(Clone, Copy, Debug, PartialEq, Eq, Structural)]
pub struct StationaryObstacle {
    pub pos: GeoPoint,
    pub radius: i64,
    pub height: i64,
}

/// The obstacle payload: the stationary obstacles known upstream.
#[derive(Clone, Debug, PartialEq, Eq)]
pub struct Obstacles {
    pub stationary: Vec<StationaryObstacle>,
}

/// The position part of a telemetry report.
#[derive(Clone, Copy, Debug, PartialEq, Eq, Structural)]
pub struct AerialPosition {
    pub lat: i64,
    pub lon: i64,
    pub alt_msl: i64,
}

/// The telemetry payload: at least the vehicle's current position.
#[derive(Clone, Copy, Debug, PartialEq, Eq, Structural)]
pub struct InteropTelem {
    pub pos: AerialPosition,
}

/// The pose a telemetry report places the vehicle at.
pub open spec fn pose_of(t: InteropTelem) -> Pose {
    Pose { lat: t.pos.lat, lon: t.pos.lon, alt_msl: t.pos.alt_msl }
}

impl InteropTelem {
    /// Extracts the pose a replan starts from; consumed once per replan
    /// call and not retained.
    pub fn pose(&self) -> (p: Pose)
        ensures
            p == pose_of(*self),
    {
        Pose { lat: self.pos.lat, lon: self.pos.lon, alt_msl: self.pos.alt_msl }
    }
}

} // verus!
