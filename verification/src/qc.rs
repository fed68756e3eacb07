//! Option rules of the RAIM-gated fault detection and exclusion (FDE) solve:
//! the observation set, the exclusion budget and the robust-loop bound.
use vstd::prelude::*;

use crate::error::{range_error, type_error, BindingError, ErrorKind};

verus! {

/// Reads `sidereon_core::positioning::DEFAULT_ROBUST_MAX_OUTER`, which the
/// engine defines as 100.
#[verifier::external_body]
fn core_default_robust_max_outer() -> (n: usize)
    ensures
        n == 100,
{
    sidereon_core::positioning::DEFAULT_ROBUST_MAX_OUTER
}

/// Resolves the robust reweighting loop bound: 100 when absent; zero is a
/// `RangeError`.
pub fn robust_max_outer(max_outer: Option<usize>) -> (r: Result<usize, BindingError>)
    ensures
        match max_outer {
            None => r == Ok::<usize, BindingError>(100),
            Some(n) => (n >= 1 ==> r == Ok::<usize, BindingError>(n)) && (n == 0 ==> (r matches Err(e)
                && e.kind == ErrorKind::Range && e.message@ == "robust.maxOuter must be at least 1"@)),
        },
{
    let n = match max_outer {
        Some(n) => n,
        None => core_default_robust_max_outer(),
    };
    if n < 1 {
        return Err(range_error("robust.maxOuter must be at least 1".to_owned()));
    }
    Ok(n)
}

/// An FDE request carries at least one observation; none is a `TypeError`.
pub fn check_fde_observations(n_observations: usize) -> (r: Result<(), BindingError>)
    ensures
        r is Ok <==> n_observations > 0,
        r matches Err(e) ==> e.kind == ErrorKind::Type && e.message@
            == "observations must contain at least one entry"@,
{
    if n_observations == 0 {
        return Err(type_error("observations must contain at least one entry".to_owned()));
    }
    Ok(())
}

/// The exclusion budget of an FDE solve: as given, or by default the
/// observations beyond the four a position and clock solution needs (none
/// when there are four or fewer).
pub fn fde_max_iterations(max_iterations: Option<usize>, n_observations: usize) -> (n: usize)
    ensures
        n == (match max_iterations {
            Some(m) => m as int,
            None => if n_observations >= 4 { n_observations - 4 } else { 0 },
        }),
{
    match max_iterations {
        Some(m) => m,
        None => n_observations.saturating_sub(4),
    }
}

} // verus!
