//! Run configuration and the error taxonomy.
//!
//! Rates are held in fixed point: a rate of `1000` stands for one
//! character per second (millicharacters per second).  This keeps the
//! timing model inside integer arithmetic, where every step can be
//! verified.

use vstd::prelude::*;

verus! {

/// The errors a run can end with.
///
/// `InvalidConfig` is detected once, before any dispatch starts.
/// `BackendInit` stands for a failure to open an injection session;
/// it occurs before any character is processed.  `Send` records a
/// failed injection of the character at the given zero-based position,
/// fatal only when errors are not ignored.
#[derive(Clone, Copy, Debug, PartialEq, Eq, Structural)]
pub enum SimError {
    InvalidConfig,
    BackendInit,
    Send { index: usize },
}

/// The immutable configuration of one run.
///
/// Invariant: `mean_rate_milli > 0`.  Both rates are in
/// millicharacters per second.
#[derive(Clone, Copy, Debug, PartialEq, Eq, Structural)]
pub struct SimulationConfig {
    pub mean_rate_milli: u64,
    pub variability_milli: u64,
    pub ignore_errors: bool,
}

impl SimulationConfig {
    /// The configuration invariant: a strictly positive mean rate.
    /// (Non-negative variability is forced by the field's type.)
    pub open spec fn valid(self) -> bool {
        self.mean_rate_milli > 0
    }

    /// Validates the timing parameters once and builds the configuration.
    ///
    /// Succeeds exactly when the mean rate is strictly positive and the
    /// variability is non-negative; any other input is rejected with
    /// `InvalidConfig` before a single character is dispatched.
    pub fn new(mean_rate_milli: i64, variability_milli: i64, ignore_errors: bool)
        -> (r: Result<SimulationConfig, SimError>)
        ensures
            mean_rate_milli > 0 && variability_milli >= 0 ==> (r == Ok::<SimulationConfig, SimError>(
                SimulationConfig {
                    mean_rate_milli: mean_rate_milli as u64,
                    variability_milli: variability_milli as u64,
                    ignore_errors,
                },
            )),
            !(mean_rate_milli > 0 && variability_milli >= 0) ==> (r == Err::<
                SimulationConfig,
                SimError,
            >(SimError::InvalidConfig)),
            r matches Ok(c) ==> c.valid(),
    {
        if mean_rate_milli > 0 && variability_milli >= 0 {
            Ok(SimulationConfig {
                mean_rate_milli: mean_rate_milli as u64,
                variability_milli: variability_milli as u64,
                ignore_errors,
            })
        } else {
            Err(SimError::InvalidConfig)
        }
    }
}

} // verus!
