use pathfinding::messages::{
    AerialPosition, FlyZone, GeoPoint, InteropMission, InteropTelem, Obstacles,
    StationaryObstacle,
};
use pathfinding::pathfinder::{PlanOutcome, Point, Pose, Waypoint};
use pathfinding::service::{Autopilot, FetchError, InitError, ReplanError};

const DEG: i64 = 1_000_000;

fn zone(points: &[(i64, i64)]) -> FlyZone {
    let mut boundary = Vec::new();
    for &(lat, lon) in points {
        boundary.push(GeoPoint { lat, lon });
    }
    FlyZone { boundary }
}

fn telem(lat: i64, lon: i64, alt_msl: i64) -> InteropTelem {
    InteropTelem { pos: AerialPosition { lat, lon, alt_msl } }
}

fn square_mission() -> InteropMission {
    InteropMission {
        fly_zones: vec![zone(&[(0, 0), (0, 10 * DEG), (10 * DEG, 10 * DEG), (10 * DEG, 0)])],
    }
}

fn ready_service() -> Autopilot {
    let mut service = Autopilot::new(
        String::from("0.0.0.0:5000"),
        String::from("0.0.0.0:8000"),
    );
    let outcome = service.initialize(&square_mission(), &Obstacles { stationary: Vec::new() });
    assert_eq!(outcome, Ok(()));
    service
}

#[test]
fn initialization_preserves_flyzone_shape() {
    let mission = InteropMission {
        fly_zones: vec![
            zone(&[(1, 2), (3, 4), (5, 6)]),
            zone(&[(7, 8), (9, 10), (11, 12), (13, 14)]),
        ],
    };
    let mut service = Autopilot::new(String::from("t"), String::from("i"));
    assert_eq!(
        service.initialize(&mission, &Obstacles { stationary: Vec::new() }),
        Ok(())
    );
    let engine = service.pathfinder.as_ref().unwrap();
    assert_eq!(engine.flyzones.len(), 2);
    assert_eq!(engine.flyzones[0].len(), 3);
    assert_eq!(engine.flyzones[1].len(), 4);
    assert_eq!(
        engine.flyzones[0],
        vec![
            Point { lat: 1, lon: 2 },
            Point { lat: 3, lon: 4 },
            Point { lat: 5, lon: 6 },
        ]
    );
    assert_eq!(
        engine.flyzones[1],
        vec![
            Point { lat: 7, lon: 8 },
            Point { lat: 9, lon: 10 },
            Point { lat: 11, lon: 12 },
            Point { lat: 13, lon: 14 },
        ]
    );
}

#[test]
fn initialization_rejects_short_boundary() {
    let mission = InteropMission {
        fly_zones: vec![zone(&[(1, 2), (3, 4), (5, 6)]), zone(&[(7, 8), (9, 10)])],
    };
    let mut service = Autopilot::new(String::from("t"), String::from("i"));
    assert_eq!(
        service.initialize(&mission, &Obstacles { stationary: Vec::new() }),
        Err(InitError::InvalidFlyzone)
    );
    assert!(!service.is_ready());
    assert!(service.pathfinder.is_none());
}

#[test]
fn obstacles_installed_elementwise() {
    let obstacles = Obstacles {
        stationary: vec![
            StationaryObstacle { pos: GeoPoint { lat: 21, lon: 22 }, radius: 30, height: 40 },
            StationaryObstacle { pos: GeoPoint { lat: 23, lon: 24 }, radius: 50, height: 60 },
        ],
    };
    let mut service = Autopilot::new(String::from("t"), String::from("i"));
    assert_eq!(service.initialize(&square_mission(), &obstacles), Ok(()));
    let engine = service.pathfinder.as_ref().unwrap();
    assert_eq!(engine.obstacles.len(), 2);
    assert_eq!(engine.obstacles[0].coords, Point { lat: 21, lon: 22 });
    assert_eq!(engine.obstacles[0].radius, 30);
    assert_eq!(engine.obstacles[0].height, 40);
    assert_eq!(engine.obstacles[1].coords, Point { lat: 23, lon: 24 });
    assert_eq!(engine.obstacles[1].radius, 50);
    assert_eq!(engine.obstacles[1].height, 60);
    assert_eq!(engine.last_adjust, None);
}

#[test]
fn replan_before_initialization_is_precondition_error() {
    let mut service = Autopilot::new(String::from("t"), String::from("i"));
    assert_eq!(service.replan_precheck(), Err(ReplanError::NotReady));
    let outcome = service.complete_replan(Ok(telem(1, 2, 3)), Some(vec![Waypoint { lat: 1, lon: 2 }]));
    assert_eq!(outcome, Err(ReplanError::NotReady));
    assert!(service.pathfinder.is_none());
}

#[test]
fn failed_fetch_leaves_engine_unchanged() {
    let mut service = ready_service();
    let first = service.complete_replan(Ok(telem(DEG, 2 * DEG, 100)), None);
    assert_eq!(first, Ok(PlanOutcome::NoPath));
    let before = service.pathfinder.clone();
    let outcome = service.complete_replan(Err(FetchError::Transport), None);
    assert_eq!(outcome, Err(ReplanError::Fetch(FetchError::Transport)));
    assert_eq!(service.pathfinder, before);
    assert!(!service.is_adjusting());
}

#[test]
fn decode_failure_is_request_failure() {
    let mut service = ready_service();
    let before = service.pathfinder.clone();
    let outcome = service.complete_replan(Err(FetchError::Decode), None);
    assert_eq!(outcome, Err(ReplanError::Fetch(FetchError::Decode)));
    assert_eq!(service.pathfinder, before);
}

#[test]
fn conflicting_adjust_fails_loudly() {
    let mut service = ready_service();
    assert_eq!(service.begin_adjust(), Ok(()));
    assert!(service.is_adjusting());
    let before = service.pathfinder.clone();
    assert_eq!(service.begin_adjust(), Err(ReplanError::Busy));
    assert_eq!(
        service.complete_replan(Ok(telem(1, 1, 1)), None),
        Err(ReplanError::Busy)
    );
    assert_eq!(service.pathfinder, before);
    let outcome = service.finish_adjust(Pose { lat: 1, lon: 2, alt_msl: 3 }, None);
    assert_eq!(outcome, PlanOutcome::NoPath);
    assert!(!service.is_adjusting());
    assert_eq!(service.begin_adjust(), Ok(()));
}

#[test]
fn sequential_replans_last_pose_wins() {
    let mut service = ready_service();
    let flyzones_before = service.pathfinder.as_ref().unwrap().flyzones.clone();
    let first = service.complete_replan(Ok(telem(DEG, DEG, 50)), Some(vec![Waypoint { lat: 0, lon: 0 }]));
    assert_eq!(first, Ok(PlanOutcome::Path(vec![Waypoint { lat: 0, lon: 0 }])));
    let second = service.complete_replan(Ok(telem(2 * DEG, 3 * DEG, 60)), None);
    assert_eq!(second, Ok(PlanOutcome::NoPath));
    let engine = service.pathfinder.as_ref().unwrap();
    assert_eq!(engine.last_adjust, Some(Pose { lat: 2 * DEG, lon: 3 * DEG, alt_msl: 60 }));
    assert_eq!(engine.flyzones, flyzones_before);
}

#[test]
fn liveness_identical_in_every_state() {
    let mut service = Autopilot::new(String::from("t"), String::from("i"));
    let before_init = service.handle_liveness();
    assert_eq!(
        service.initialize(&square_mission(), &Obstacles { stationary: Vec::new() }),
        Ok(())
    );
    let after_init = service.handle_liveness();
    assert_eq!(service.begin_adjust(), Ok(()));
    let while_adjusting = service.handle_liveness();
    assert_eq!(before_init.status, after_init.status);
    assert_eq!(before_init.body, after_init.body);
    assert_eq!(before_init.status, while_adjusting.status);
    assert_eq!(before_init.body, while_adjusting.body);
    assert_eq!(before_init.body, "Alive and well!");
}

#[test]
fn end_to_end_square_flyzone() {
    let mut service = ready_service();
    let inside = service.complete_replan(
        Ok(telem(5 * DEG, 5 * DEG, 100)),
        Some(vec![Waypoint { lat: 5 * DEG, lon: 5 * DEG }, Waypoint { lat: 6 * DEG, lon: 6 * DEG }]),
    );
    assert_eq!(
        inside,
        Ok(PlanOutcome::Path(vec![
            Waypoint { lat: 5 * DEG, lon: 5 * DEG },
            Waypoint { lat: 6 * DEG, lon: 6 * DEG },
        ]))
    );
    let outside = service.complete_replan(Ok(telem(50 * DEG, 50 * DEG, 100)), None);
    assert_eq!(outside, Ok(PlanOutcome::NoPath));
    let engine = service.pathfinder.as_ref().unwrap();
    assert_eq!(
        engine.last_adjust,
        Some(Pose { lat: 50 * DEG, lon: 50 * DEG, alt_msl: 100 })
    );
}

#[test]
fn urls_formed_from_hosts() {
    let service = Autopilot::new(String::from("0.0.0.0:5000"), String::from("0.0.0.0:8000"));
    assert_eq!(service.telemetry_host, "http://0.0.0.0:5000");
    assert_eq!(service.interop_proxy_host, "http://0.0.0.0:8000");
    assert_eq!(service.telemetry_url(), "http://0.0.0.0:5000/api/interop-telem");
    assert_eq!(service.mission_url(), "http://0.0.0.0:8000/api/mission");
    assert_eq!(service.obstacles_url(), "http://0.0.0.0:8000/api/obstacles");
}

#[test]
fn default_upstream_addresses() {
    assert_eq!(pathfinding::service::default_telemetry_url(), "0.0.0.0:5000");
    assert_eq!(pathfinding::service::default_interop_proxy_url(), "0.0.0.0:8000");
}

#[test]
fn telemetry_pose_extraction() {
    let t = telem(7, 8, 9);
    assert_eq!(t.pose(), Pose { lat: 7, lon: 8, alt_msl: 9 });
}
