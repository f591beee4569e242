use wasm_fib::fib::{fib_cpu, join_child, join_fib, plan_fib, FibStep, FIB_U64_MAX_INPUT, PARALLEL_CUTOFF};
use wasm_fib::status::ChildStatus;

#[test]
fn lib_computes_known_small_values() {
    let values = [0, 1, 1, 2, 3, 5, 8, 13, 21, 34, 55];

    for (n, expected) in values.into_iter().enumerate() {
        assert_eq!(fib_cpu(n as u64), expected);
    }
}

fn fib_by_plan(n: u64) -> u64 {
    match plan_fib(n) {
        FibStep::Compute { n } => fib_cpu(n),
        FibStep::Fork { left, right } => join_fib(fib_by_plan(left), fib_by_plan(right)),
    }
}

#[test]
fn main_computes_known_small_values() {
    let values = [0, 1, 1, 2, 3, 5, 8, 13, 21, 34, 55];

    for (n, expected) in values.into_iter().enumerate() {
        assert_eq!(fib_by_plan(n as u64), expected);
    }
}

#[test]
fn computes_parallel_branch_value() {
    assert_eq!(fib_by_plan(35), 9_227_465);
}

#[test]
fn plan_forks_only_above_cutoff() {
    assert_eq!(plan_fib(PARALLEL_CUTOFF), FibStep::Compute { n: 30 });
    assert_eq!(plan_fib(31), FibStep::Fork { left: 30, right: 29 });
    assert_eq!(plan_fib(0), FibStep::Compute { n: 0 });
}

#[test]
fn sequential_kernel_reaches_cutoff() {
    assert_eq!(fib_cpu(30), 832_040);
    assert_eq!(FIB_U64_MAX_INPUT, 93);
}

#[test]
fn join_child_adds_or_zeroes() {
    assert_eq!(join_child(Ok(5), 3), 8);
    assert_eq!(join_child(Err(ChildStatus::Trap), 3), 0);
    assert_eq!(join_fib(832_040, 514_229), 1_346_269);
}
