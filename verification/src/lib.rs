//! Control-loop front end of an autonomous vehicle's path-replanning
//! subsystem.
//!
//! The library owns the orchestration logic: loading mission geometry and
//! obstacles once, holding the planning-engine state behind an
//! exclusive-access discipline, and routing liveness and replan commands.
//! The geometric path search itself, the network transport, and the
//! wire-format decoding of upstream payloads are external collaborators;
//! their results enter the library as plain values.

pub mod dispatch;
pub mod messages;
pub mod pathfinder;
pub mod service;
