//! Classifying a process as healthy or not from an outside liveness probe.
use vstd::prelude::*;

verus! {

/// The verdict of one health check.
#[derive(Clone, Debug, PartialEq, Eq)]
pub enum HealthResult {
    Healthy,
    /// The probe failed; holds the description of the failure.
    Unhealthy(String),
}

impl HealthResult {
    pub fn is_healthy(&self) -> (r: bool)
        ensures
            r == (self is Healthy),
    {
        match self {
            HealthResult::Healthy => true,
            HealthResult::Unhealthy(_) => false,
        }
    }
}

/// Classifies a probe that connected (`Ok`) or failed with the given
/// description: any failure, a refusal, a timeout or another error of I/O,
/// counts as unhealthy.
pub fn check_health(probe: Result<(), String>) -> (r: HealthResult)
    ensures
        probe is Ok ==> r == HealthResult::Healthy,
        probe matches Err(reason) ==> r == HealthResult::Unhealthy(reason),
{
    match probe {
        Ok(()) => HealthResult::Healthy,
        Err(reason) => HealthResult::Unhealthy(reason),
    }
}

} // verus!
