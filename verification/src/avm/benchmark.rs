//! AVM vs EVM execution micro-benchmark.
//!
//! Two simulated execution engines are each run [`ITERATIONS`] times; the
//! benchmark reports the average nanoseconds per operation of each.
//!
//! | Engine | Simulation | Result of one call |
//! |---|---|---|
//! | AVM (JIT) | stack-only arithmetic | Σ 7·i for i in 0..100 = 34 650 |
//! | EVM (bytecode) | per-call heap-allocated op list | Σ op·i for op in 1..=5, i in 0..20 = 2 850 |
//!
//! The clock readings depend on the machine; what is proved is the
//! arithmetic done on them ([`report_from_totals`]) and the kernels' results.
use vstd::prelude::*;

use crate::error::HftError;

verus! {

/// The standard library's monotonic clock reading, carried through opaquely.
#[verifier::external_type_specification]
#[verifier::external_body]
pub struct ExInstant(std::time::Instant);

/// `std::time::Instant::now`: reads the monotonic clock. Nothing is
/// promised of the reading.
pub assume_specification[ std::time::Instant::now ]() -> std::time::Instant;

/// `std::time::Instant::elapsed`: the time passed since the reading. Nothing
/// is promised of the duration, which depends on the clock.
pub assume_specification[ std::time::Instant::elapsed ](i: &std::time::Instant) -> core::time::Duration;

/// `core::time::Duration::as_nanos`: the whole nanoseconds of a duration.
/// Nothing is promised of the value, since the duration is unconstrained.
pub assume_specification[ core::time::Duration::as_nanos ](d: &core::time::Duration) -> u128;

/// Number of times each engine is run.
pub const ITERATIONS: u32 = 10_000;

/// The per-operation timings of one benchmark run.
#[derive(Debug, Clone, Copy, PartialEq, Eq)]
pub struct BenchmarkReport {
    /// Average nanoseconds per AVM kernel call.
    pub avm_ns_per_op: u128,
    /// Average nanoseconds per EVM kernel call.
    pub evm_ns_per_op: u128,
}

/// The report that total timings give: each total divided by [`ITERATIONS`],
/// rounded down.
pub open spec fn report_from_totals(avm_total_ns: u128, evm_total_ns: u128) -> BenchmarkReport {
    BenchmarkReport {
        avm_ns_per_op: (avm_total_ns / (ITERATIONS as u128)) as u128,
        evm_ns_per_op: (evm_total_ns / (ITERATIONS as u128)) as u128,
    }
}

/// Builds the report from the total nanoseconds each engine took for
/// [`ITERATIONS`] calls.
pub fn benchmark_report(avm_total_ns: u128, evm_total_ns: u128) -> (r: BenchmarkReport)
    ensures
        r == report_from_totals(avm_total_ns, evm_total_ns),
{
    BenchmarkReport {
        avm_ns_per_op: avm_total_ns / (ITERATIONS as u128),
        evm_ns_per_op: evm_total_ns / (ITERATIONS as u128),
    }
}

/// Runs each engine [`ITERATIONS`] times, timing both, and reports the
/// average nanoseconds per operation.
pub fn run() -> (r: Result<BenchmarkReport, HftError>)
    ensures
        r is Ok,
        exists|avm_total: u128, evm_total: u128| r->Ok_0 == report_from_totals(avm_total, evm_total),
{
    let t0 = std::time::Instant::now();
    for _i in 0..ITERATIONS {
        let _ = avm_execute_simulated();
    }
    let avm_total: u128 = t0.elapsed().as_nanos();

    let t1 = std::time::Instant::now();
    for _i in 0..ITERATIONS {
        let _ = evm_execute_simulated();
    }
    let evm_total: u128 = t1.elapsed().as_nanos();

    let report = benchmark_report(avm_total, evm_total);
    Ok(report)
}

/// One call of the simulated AVM (JIT-compiled) engine: Σ 7·i over
/// `i` in `0..100`, with no heap allocation.
pub fn avm_execute_simulated() -> (r: u64)
    ensures
        r == 34_650,
{
    let mut acc: u64 = 0;
    let mut i: u64 = 0;
    while i < 100
        invariant
            i <= 100,
            2 * acc == 7 * (i * (i - 1)),
        decreases 100 - i,
    {
        let prod = i.wrapping_mul(7);
        assert(prod == 7 * i);
        assert(acc <= 7 * 100 * 100) by (nonlinear_arith)
            requires
                2 * acc == 7 * (i * (i - 1)),
                i <= 100,
        ;
        acc = acc.wrapping_add(prod);
        assert(2 * acc == 7 * ((i + 1) * i)) by (nonlinear_arith)
            requires
                2 * (acc - 7 * i) == 7 * (i * (i - 1)),
        ;
        i = i + 1;
    }
    acc
}

/// One call of the simulated EVM (bytecode-interpreted) engine: the op list
/// `[1, 2, 3, 4, 5]` is allocated on the heap on every call, then
/// Σ op·i over each op and `i` in `0..20` is accumulated.
pub fn evm_execute_simulated() -> (r: u64)
    ensures
        r == 2_850,
{
    let mut acc: u64 = 0;
    let ops: Vec<u64> = vec![1u64, 2, 3, 4, 5];
    let mut k: usize = 0;
    while k < ops.len()
        invariant
            ops@ == seq![1u64, 2, 3, 4, 5],
            k <= 5,
            2 * acc == 190 * (k * (k + 1)),
        decreases 5 - k,
    {
        let op = ops[k];
        assert(op == k + 1);
        let mut i: u64 = 0;
        let acc0: u64 = acc;
        assert(op * (i * (i - 1)) == 0) by (nonlinear_arith)
            requires
                i == 0,
        ;
        while i < 20
            invariant
                i <= 20,
                op == k + 1,
                k < 5,
                2 * acc0 == 190 * (k * (k + 1)),
                2 * acc == 2 * acc0 + op * (i * (i - 1)),
            decreases 20 - i,
        {
            assert(op * i <= 5 * 20) by (nonlinear_arith)
                requires
                    op <= 5,
                    i <= 20,
            ;
            let prod = op.wrapping_mul(i);
            assert(acc <= 2 * 190 * 30 + 5 * 400) by (nonlinear_arith)
                requires
                    2 * acc == 2 * acc0 + op * (i * (i - 1)),
                    2 * acc0 == 190 * (k * (k + 1)),
                    k < 5,
                    op <= 5,
                    i <= 20,
            ;
            acc = acc.wrapping_add(prod);
            assert(2 * acc == 2 * acc0 + op * ((i + 1) * i)) by (nonlinear_arith)
                requires
                    2 * (acc - op * i) == 2 * acc0 + op * (i * (i - 1)),
            ;
            i = i + 1;
        }
        assert(2 * acc == 190 * ((k + 1) * (k + 2))) by (nonlinear_arith)
            requires
                2 * acc == 2 * acc0 + op * (20 * 19),
                2 * acc0 == 190 * (k * (k + 1)),
                op == k + 1,
        ;
        k = k + 1;
    }
    acc
}

} // verus!
