use vstd::prelude::*;

verus! {

/// Why the backend could not be brought up.
#[derive(Clone, Copy, Debug, PartialEq, Eq, Structural)]
pub enum BackendError {
    /// No candidate location holds the entry point.
    NotFound,
    /// The backend process could not be created.
    SpawnError,
    /// The process was created but never answered within the polling bound.
    ReadinessTimeout,
}

} // verus!
