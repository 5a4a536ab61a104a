//! Tests of the AVM benchmark module.

use polar_bear_rig_hft::avm::benchmark::{
    avm_execute_simulated, benchmark_report, evm_execute_simulated, BenchmarkReport, ITERATIONS,
};
use polar_bear_rig_hft::avm::reactor::execution_mode_label;

/// Benchmark must complete without failing.
#[test]
fn test_benchmark_runs_without_error() {
    let result = polar_bear_rig_hft::avm::run_benchmark();
    assert!(
        result.is_ok(),
        "AVM benchmark should not fail: {:?}",
        result
    );
}

#[test]
fn test_avm_kernel_sums_multiples_of_seven() {
    let expected: u64 = (0..100u64).map(|i| i * 7).sum();
    assert_eq!(avm_execute_simulated(), expected);
    assert_eq!(avm_execute_simulated(), 34_650);
}

#[test]
fn test_evm_kernel_sums_op_products() {
    let mut expected = 0u64;
    for op in [1u64, 2, 3, 4, 5] {
        for i in 0..20u64 {
            expected += op * i;
        }
    }
    assert_eq!(evm_execute_simulated(), expected);
    assert_eq!(evm_execute_simulated(), 2_850);
}

#[test]
fn test_report_divides_totals_by_iterations() {
    assert_eq!(ITERATIONS, 10_000);
    let r = benchmark_report(25_000, 199_999);
    assert_eq!(r, BenchmarkReport { avm_ns_per_op: 2, evm_ns_per_op: 19 });
    let zero = benchmark_report(9_999, 0);
    assert_eq!(zero, BenchmarkReport { avm_ns_per_op: 0, evm_ns_per_op: 0 });
}

#[test]
fn test_execution_mode_labels() {
    assert_eq!(execution_mode_label(true), "DRY RUN (simulation)");
    assert_eq!(execution_mode_label(false), "LIVE");
}
