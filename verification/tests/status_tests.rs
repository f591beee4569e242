use wasm_fib::errors::{classify_child_error, classify_run_error, with_wasmtime_context};
use wasm_fib::status::{
    classify_child_failure, classify_failure, status_name, ChildStatus, RunFailure, STATUS_STACK_OVERFLOW,
    STATUS_TRAP,
};

#[test]
fn names_status_codes() {
    assert_eq!(status_name(0), "ok");
    assert_eq!(status_name(1), "stack-overflow");
    assert_eq!(status_name(2), "trap");
    assert_eq!(status_name(3), "bad-export");
    assert_eq!(status_name(4), "runtime-error");
    assert_eq!(status_name(10), "supervisor-failed");
    assert_eq!(status_name(5), "unknown");
    assert_eq!(status_name(-1), "unknown");
}

#[test]
fn maps_failures_to_child_statuses() {
    assert_eq!(RunFailure::StackOverflow.into_child_status(), ChildStatus::StackOverflow);
    assert_eq!(RunFailure::Trap.into_child_status(), ChildStatus::Trap);
    assert_eq!(RunFailure::BadExport.into_child_status(), ChildStatus::BadExport);
    assert_eq!(RunFailure::RuntimeError.into_child_status(), ChildStatus::RuntimeError);
}

#[test]
fn classifies_failures() {
    assert_eq!(classify_failure(true, "whatever", false), RunFailure::StackOverflow);
    assert_eq!(classify_failure(false, "wasm trap: Call Stack Exhausted", false), RunFailure::StackOverflow);
    assert_eq!(classify_failure(false, "STACK OVERFLOW in guest", true), RunFailure::StackOverflow);
    assert_eq!(classify_failure(false, "component does not export fib(u64) -> u64", true), RunFailure::BadExport);
    assert_eq!(classify_failure(false, "unreachable", true), RunFailure::Trap);
    assert_eq!(classify_failure(false, "unreachable", false), RunFailure::RuntimeError);
    assert_eq!(classify_child_failure(true, ""), STATUS_STACK_OVERFLOW);
    assert_eq!(classify_child_failure(false, "call stack exhausted"), STATUS_STACK_OVERFLOW);
    assert_eq!(classify_child_failure(false, "does not export fib"), STATUS_TRAP);
}

#[test]
fn classifies_anyhow_errors() {
    let overflow = anyhow::Error::from(wasmtime::Trap::StackOverflow);
    assert_eq!(classify_run_error(&overflow), RunFailure::StackOverflow);
    assert_eq!(classify_child_error(&overflow), STATUS_STACK_OVERFLOW);
    let unreachable = anyhow::Error::from(wasmtime::Trap::UnreachableCodeReached);
    assert_eq!(classify_child_error(&unreachable), STATUS_TRAP);
    let missing = anyhow::Error::msg("guest component does not export fib(n: u64) -> u64");
    assert_eq!(classify_run_error(&missing), RunFailure::BadExport);
    let other = anyhow::Error::msg("expected an 8-byte u64 payload, got 3 bytes");
    assert_eq!(classify_run_error(&other), RunFailure::RuntimeError);
}

#[test]
fn context_wraps_only_errors() {
    let ok: Result<u32, anyhow::Error> = Ok(7);
    assert_eq!(with_wasmtime_context(ok, "step").unwrap(), 7);
    let err: Result<u32, anyhow::Error> = Err(anyhow::Error::msg("boom"));
    let wrapped = with_wasmtime_context(err, "failed to load").unwrap_err();
    assert_eq!(wrapped.to_string(), "failed to load: boom");
}

#[test]
fn context_errors_are_classified_by_message() {
    let trap: Result<u32, anyhow::Error> = Err(anyhow::Error::from(wasmtime::Trap::StackOverflow));
    let wrapped = with_wasmtime_context(trap, "failed to run").unwrap_err();
    assert!(wrapped.to_string().starts_with("failed to run: "));
    assert!(wrapped.downcast_ref::<wasmtime::Trap>().is_none());
    let plain: Result<u32, anyhow::Error> = Err(anyhow::Error::msg("unreachable"));
    let wrapped = with_wasmtime_context(plain, "step").unwrap_err();
    assert_eq!(classify_run_error(&wrapped), RunFailure::RuntimeError);
    assert_eq!(classify_child_error(&wrapped), STATUS_TRAP);
}
