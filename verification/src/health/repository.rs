//! Process liveness.

use vstd::prelude::*;

use crate::health::error::HealthError;

verus! {

/// System status information returned by health checks.
#[derive(Clone, Copy, PartialEq, Eq, Structural, Debug)]
pub struct SystemStatus {
    /// Whether the system is currently healthy and able to serve requests.
    pub is_healthy: bool,
}

/// Source of the process's own status. Database and upstream probes are not made
/// here.
#[derive(Clone, Copy, PartialEq, Eq, Structural, Debug)]
pub struct HealthRepository;

impl HealthRepository {
    /// Creates a new instance of the health repository.
    pub fn new() -> (repository: HealthRepository)
        ensures
            repository == HealthRepository,
    {
        HealthRepository
    }

    /// The process's status: it is healthy while it can answer.
    pub fn get_system_status(&self) -> (status: Result<SystemStatus, HealthError>)
        ensures
            status == Ok::<SystemStatus, HealthError>(SystemStatus { is_healthy: true }),
    {
        Ok(SystemStatus { is_healthy: true })
    }
}

impl Default for HealthRepository {
    fn default() -> (repository: HealthRepository)
        ensures
            repository == HealthRepository,
    {
        Self::new()
    }
}

} // verus!
