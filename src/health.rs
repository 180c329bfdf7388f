//! The health report of the service.

use vstd::prelude::*;
use crate::text::str_eq;

verus! {

/// The outcome of one health check.
#[derive(Clone, Debug)]
pub struct CheckResult {
    /// "healthy" or "unhealthy".
    pub status: String,
    pub response_time_ms: u64,
    pub details: Option<String>,
}

/// The health of the service: overall status and each named check.
#[derive(Clone, Debug)]
pub struct HealthStatus {
    pub status: String,
    pub timestamp: String,
    pub version: String,
    pub checks: Vec<(String, CheckResult)>,
}

pub open spec fn is_healthy_text(s: Seq<char>) -> bool {
    s == "healthy"@
}

/// Whether every check is healthy.
pub open spec fn all_healthy(checks: Seq<(String, CheckResult)>) -> bool {
    forall|i: int| 0 <= i < checks.len() ==> is_healthy_text(#[trigger] checks[i].1.status@)
}

impl CheckResult {
    /// The result of a check that succeeded, or failed with the given reason.
    pub fn from_outcome(failure: Option<String>, response_time_ms: u64) -> (r: CheckResult)
        ensures
            r.status@ == (if failure is None { "healthy"@ } else { "unhealthy"@ }),
            r.response_time_ms == response_time_ms,
            r.details == failure,
    {
        let status = if failure.is_none() {
            String::from_str("healthy")
        } else {
            String::from_str("unhealthy")
        };
        CheckResult { status, response_time_ms, details: failure }
    }
}

/// Whether every check is healthy.
pub fn overall_healthy(checks: &Vec<(String, CheckResult)>) -> (r: bool)
    ensures
        r == all_healthy(checks@),
{
    let mut i: usize = 0;
    while i < checks.len()
        invariant
            i <= checks@.len(),
            forall|j: int| 0 <= j < i ==> is_healthy_text(#[trigger] checks@[j].1.status@),
        decreases checks@.len() - i,
    {
        if !str_eq(checks[i].1.status.as_str(), "healthy") {
            return false;
        }
        i = i + 1;
    }
    true
}

impl HealthStatus {
    /// The report for the given checks: "healthy" where all are, else "unhealthy".
    pub fn new(timestamp: String, version: String, checks: Vec<(String, CheckResult)>) -> (r: HealthStatus)
        ensures
            r.status@ == (if all_healthy(checks@) { "healthy"@ } else { "unhealthy"@ }),
            r.timestamp == timestamp,
            r.version == version,
            r.checks == checks,
    {
        let status = if overall_healthy(&checks) {
            String::from_str("healthy")
        } else {
            String::from_str("unhealthy")
        };
        HealthStatus { status, timestamp, version, checks }
    }
}

} // verus!
