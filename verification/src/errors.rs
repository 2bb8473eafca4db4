//! Input validation for a simulation request.
//!
//! All preconditions are checked once, before any trial is run, so that a
//! malformed request is reported as a structured error instead of surfacing
//! as an out-of-range index or a division by zero deep inside the trial loop.

use vstd::prelude::*;

verus! {

/// The ways a simulation request can be invalid.
#[derive(Clone, Copy, Debug, PartialEq, Eq, Structural)]
pub enum SimError {
    /// The residual/return pool is empty, so sampling is undefined.
    InvalidPool,
    /// `num_simulations` is zero, so the normalizing division is undefined.
    InvalidSimulationCount,
    /// The horizon is negative, which is not a valid number of steps.
    InvalidHorizon,
}

impl SimError {
    /// A short description of the violated constraint.
    pub fn message(&self) -> (m: &'static str)
        ensures
            *self is InvalidPool ==> m@ == "empty pool: sampling is undefined"@,
            *self is InvalidSimulationCount ==> m@ == "num_simulations must be at least 1"@,
            *self is InvalidHorizon ==> m@ == "horizon_minutes must be non-negative"@,
    {
        match self {
            SimError::InvalidPool => "empty pool: sampling is undefined",
            SimError::InvalidSimulationCount => "num_simulations must be at least 1",
            SimError::InvalidHorizon => "horizon_minutes must be non-negative",
        }
    }
}

/// Checks a simulation request before any work is dispatched.
///
/// Returns `Ok(())` exactly when the pool is non-empty, the horizon is
/// non-negative and at least one trial is requested; otherwise reports the
/// first violated constraint, checked in the order pool, trial count,
/// horizon.
pub fn validate_request(pool_len: usize, horizon_minutes: i64, num_simulations: usize) -> (r:
    Result<(), SimError>)
    ensures
        r == Ok::<(), SimError>(()) <==> (pool_len > 0 && num_simulations > 0 && horizon_minutes
            >= 0),
        r == Err::<(), SimError>(SimError::InvalidPool) <==> pool_len == 0,
        r == Err::<(), SimError>(SimError::InvalidSimulationCount) <==> (pool_len > 0
            && num_simulations == 0),
        r == Err::<(), SimError>(SimError::InvalidHorizon) <==> (pool_len > 0
            && num_simulations > 0 && horizon_minutes < 0),
{
    if pool_len == 0 {
        Err(SimError::InvalidPool)
    } else if num_simulations == 0 {
        Err(SimError::InvalidSimulationCount)
    } else if horizon_minutes < 0 {
        Err(SimError::InvalidHorizon)
    } else {
        Ok(())
    }
}

} // verus!
