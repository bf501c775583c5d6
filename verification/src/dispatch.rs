//! The request dispatcher: maps inbound commands onto the replanning
//! service and selects the response status.
//!
//! Routing recognizes exactly two commands — the liveness check and the
//! replan trigger — and answers anything else with a not-found outcome.
//! No business logic lives here beyond routing and status selection.

use vstd::prelude::*;
use vstd::string::*;
use crate::service::{Autopilot, ReplanError};
use crate::pathfinder::PlanOutcome;

verus! {

/// The request methods the dispatcher distinguishes; every method beside
/// these two routes to the not-found outcome.
#[derive(Clone, Copy, Debug, PartialEq, Eq, Structural)]
pub enum Method {
    Get,
    Post,
    Other,
}

/// The commands the service understands.
#[derive(Clone, Copy, Debug, PartialEq, Eq, Structural)]
pub enum Command {
    Liveness,
    Replan,
    Unknown,
}

/// The response statuses the dispatcher selects from: success, the
/// not-found answer for unrecognized commands, and the request-failure
/// status for a replan that could not complete.
#[derive(Clone, Copy, Debug, PartialEq, Eq, Structural)]
pub enum StatusCode {
    Okay,
    NotFound,
    InternalServerError,
}

/// What goes back to the caller: a status and a textual body.
#[derive(Clone, Debug)]
pub struct Response {
    pub status: StatusCode,
    pub body: String,
}

/// Whether two strings hold the same characters.
pub fn str_eq(a: &str, b: &str) -> (r: bool)
    ensures
        r == (a@ == b@),
{
    let a_len = a.unicode_len();
    let b_len = b.unicode_len();
    if a_len != b_len {
        return false;
    }
    let mut i: usize = 0;
    while i < a_len
        invariant
            a_len == a@.len(),
            b_len == b@.len(),
            a_len == b_len,
            i <= a_len,
            forall|k: int| 0 <= k < i ==> a@[k] == b@[k],
        decreases a_len - i,
    {
        if a.get_char(i) != b.get_char(i) {
            return false;
        }
        i += 1;
    }
    proof {
        assert(a@ =~= b@);
    }
    true
}

/// The endpoint table: a liveness check is a plain read, a replan trigger
/// a mutation, and everything else is unrecognized.
pub open spec fn spec_route(method: Method, path: Seq<char>) -> Command {
    if method is Get && path == "/api/alive"@ {
        Command::Liveness
    } else if method is Post && path == "/api/update_path"@ {
        Command::Replan
    } else {
        Command::Unknown
    }
}

/// Routes one inbound request to the command it names.
pub fn route(method: Method, path: &str) -> (c: Command)
    ensures
        c == spec_route(method, path@),
{
    match method {
        Method::Get => {
            if str_eq(path, "/api/alive") {
                Command::Liveness
            } else {
                Command::Unknown
            }
        },
        Method::Post => {
            if str_eq(path, "/api/update_path") {
                Command::Replan
            } else {
                Command::Unknown
            }
        },
        Method::Other => Command::Unknown,
    }
}

/// The liveness acknowledgment: a fixed text, owed unconditionally and
/// independent of any service state.
pub fn liveness_response() -> (r: Response)
    ensures
        r.status == StatusCode::Okay,
        r.body@ == "Alive and well!"@,
{
    Response { status: StatusCode::Okay, body: String::from_str("Alive and well!") }
}

/// The answer to an unrecognized command.
pub fn not_found_response() -> (r: Response)
    ensures
        r.status == StatusCode::NotFound,
        r.body@ == Seq::<char>::empty(),
{
    Response { status: StatusCode::NotFound, body: String::new() }
}

/// The status a completed replan maps to: success whenever the operation
/// completed, whether or not a path was found; the request-failure status
/// exactly when it could not complete.
pub fn replan_response(outcome: &Result<PlanOutcome, ReplanError>) -> (r: Response)
    ensures
        r.status == (if outcome is Ok {
            StatusCode::Okay
        } else {
            StatusCode::InternalServerError
        }),
        r.body@ == Seq::<char>::empty(),
{
    match outcome {
        Ok(_) => Response { status: StatusCode::Okay, body: String::new() },
        Err(_) => Response { status: StatusCode::InternalServerError, body: String::new() },
    }
}

impl Autopilot {
    /// Answers a liveness check. The contract names no part of the
    /// service state: the acknowledgment is identical before and after
    /// initialization and whether or not a replan holds the engine, and
    /// it never touches the engine.
    pub fn handle_liveness(&self) -> (r: Response)
        ensures
            r.status == StatusCode::Okay,
            r.body@ == "Alive and well!"@,
    {
        liveness_response()
    }
}

} // verus!
