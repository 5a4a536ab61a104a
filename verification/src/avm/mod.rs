//! AVM (Agave Virtual Machine) execution layer.
//!
//! * [`benchmark`]: the two simulated execution kernels and the benchmark
//!   that times them;
//! * [`reactor`]: the decision behind the Reactor audit log.
pub mod benchmark;
pub mod reactor;

use vstd::prelude::*;

use crate::error::HftError;
use benchmark::{report_from_totals, BenchmarkReport};

verus! {

/// Runs the AVM vs EVM benchmark (see [`benchmark::run`]).
pub fn run_benchmark() -> (r: Result<BenchmarkReport, HftError>)
    ensures
        r is Ok,
        exists|avm_total: u128, evm_total: u128| r->Ok_0 == report_from_totals(avm_total, evm_total),
{
    benchmark::run()
}

} // verus!
