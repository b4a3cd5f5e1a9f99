use vstd::prelude::*;

verus! {

/// Failure taxonomy of the unit's operations. Lifecycle operations report
/// failure through these values and never panic; health degradation is a
/// separate, softer channel carried by `HealthStatus`.
#[derive(Debug, Clone, PartialEq, Eq)]
pub enum PluginError {
    /// An operation was invoked from a state in which it is not legal,
    /// such as starting a unit that was never initialized.
    StateError,
    /// Bringing the unit up failed: capability registration or the identity
    /// manifest could not be processed. The host must not start the unit.
    InitError(String),
    /// Handling an inter-unit message failed; reported to the sender rather
    /// than propagated into the lifecycle.
    MessageError(String),
}

/// The result type of every operation the host invokes on a unit.
pub type PluginResult<T> = Result<T, PluginError>;

} // verus!
