//! The liveness probe.

use vstd::prelude::*;
use crate::time::Timestamp;

verus! {

/// The answer to a health check.
pub struct HealthResponse {
    success: bool,
    timestamp: Timestamp,
}

impl HealthResponse {
    pub closed spec fn is_success(&self) -> bool {
        self.success
    }

    pub closed spec fn at(&self) -> Timestamp {
        self.timestamp
    }

    /// Whether the service reports itself healthy.
    pub fn success(&self) -> (r: bool)
        ensures
            r == self.is_success(),
    {
        self.success
    }

    /// When the check was answered.
    pub fn timestamp(&self) -> (r: Timestamp)
        ensures
            r == self.at(),
    {
        self.timestamp
    }
}

/// Answers a health check received at `now`: status 200, healthy, stamped `now`.
pub fn health(now: Timestamp) -> (r: (u16, HealthResponse))
    ensures
        r.0 == 200,
        r.1.is_success(),
        r.1.at() == now,
{
    (200, HealthResponse { success: true, timestamp: now })
}

} // verus!
