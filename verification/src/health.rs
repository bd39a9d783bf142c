//! The liveness probe: a fixed answer that depends on nothing else.

use vstd::prelude::*;
use vstd::string::*;

verus! {

/// HTTP status of every answer this service gives.
pub const STATUS_OK: u16 = 200;

/// Payload of the liveness probe.
#[derive(Debug, Clone, PartialEq, Eq)]
pub struct HealthStatus {
    pub status: String,
}

/// A liveness answer: the status code and the payload sent with it.
#[derive(Debug, Clone, PartialEq, Eq)]
pub struct HealthReply {
    pub code: u16,
    pub body: HealthStatus,
}

/// The text of the liveness payload.
pub open spec fn health_message() -> Seq<char> {
    "Service is up and running"@
}

/// Answers the liveness probe. The answer takes no input, so it is the same
/// whatever state the database or the connection pool is in.
pub fn health_check() -> (reply: HealthReply)
    ensures
        reply.code == 200,
        reply.body.status@ == health_message(),
{
    HealthReply {
        code: STATUS_OK,
        body: HealthStatus { status: String::from_str("Service is up and running") },
    }
}

} // verus!
