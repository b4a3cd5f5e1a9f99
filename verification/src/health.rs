use vstd::prelude::*;

verus! {

/// The closed set of health states a unit can report. Exactly one variant is
/// current at a time; `Warning` and `Error` carry a human-readable diagnostic.
/// Health is independent of the lifecycle state: a unit can be running but
/// unhealthy and keep accepting ticks.
#[derive(Debug, Clone, PartialEq, Eq)]
pub enum HealthStatus {
    Healthy,
    Warning(String),
    Error(String),
}

/// A unit counts as healthy only in the `Healthy` state; no ordering holds
/// between the variants.
pub open spec fn spec_is_healthy(h: HealthStatus) -> bool {
    h is Healthy
}

/// The human-readable rendering of a health state: `"Healthy"`,
/// `"Warning: <reason>"` or `"Error: <reason>"`.
pub open spec fn spec_status_text(h: HealthStatus) -> Seq<char> {
    match h {
        HealthStatus::Healthy => "Healthy"@,
        HealthStatus::Warning(reason) => "Warning: "@ + reason@,
        HealthStatus::Error(reason) => "Error: "@ + reason@,
    }
}

} // verus!
