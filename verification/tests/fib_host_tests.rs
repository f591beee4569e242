use wasm_fib::fib_host::{
    child_status_name, parse_host_command, run_fib_status, HostCommand, HostDefaults, HostEnv,
    CHILD_STATUS_RESULT_WRITE_FAILED,
};

fn strings(items: &[&str]) -> Vec<String> {
    items.iter().map(|s| s.to_string()).collect()
}

fn no_env() -> HostEnv {
    HostEnv { fib_guest: None, fail_supervisor: None, fail_child: None, fail_burn_iters: None }
}

fn defaults() -> HostDefaults {
    HostDefaults {
        threads: 4,
        fib_guest_path: "default-guest.wasm".to_string(),
        fail_supervisor_path: "default-sup.wasm".to_string(),
        fail_child_path: "default-child.wasm".to_string(),
    }
}

#[test]
fn fib_run_defaults() {
    match parse_host_command(&strings(&[]), &no_env(), &defaults()) {
        HostCommand::Fib(args) => {
            assert_eq!(args.n, 52);
            assert_eq!(args.workers, 4);
            assert_eq!(args.wasm_path, "default-guest.wasm");
        }
        _ => panic!("expected a fib run"),
    }
}

#[test]
fn fib_run_reads_arguments_then_env() {
    let env = HostEnv { fib_guest: Some("env-guest.wasm".to_string()), ..no_env() };
    match parse_host_command(&strings(&["40", "0"]), &env, &defaults()) {
        HostCommand::Fib(args) => {
            assert_eq!(args.n, 40);
            assert_eq!(args.workers, 4);
            assert_eq!(args.wasm_path, "env-guest.wasm");
        }
        _ => panic!("expected a fib run"),
    }
    match parse_host_command(&strings(&["x", "2", "arg-guest.wasm"]), &env, &defaults()) {
        HostCommand::Fib(args) => {
            assert_eq!(args.n, 52);
            assert_eq!(args.workers, 2);
            assert_eq!(args.wasm_path, "arg-guest.wasm");
        }
        _ => panic!("expected a fib run"),
    }
}

#[test]
fn fail_demo_falls_back() {
    let env = HostEnv {
        fail_child: Some("env-child.wasm".to_string()),
        fail_burn_iters: Some("99".to_string()),
        ..no_env()
    };
    match parse_host_command(&strings(&["fail-demo", "30", "bad", "sup.wasm", "", "nope"]), &env, &defaults()) {
        HostCommand::FailDemo(args) => {
            assert_eq!(args.n, 30);
            assert_eq!(args.retries, 3);
            assert_eq!(args.supervisor_path, "sup.wasm");
            assert_eq!(args.child_path, "");
            assert_eq!(args.burn_iters, 99);
        }
        _ => panic!("expected the demo"),
    }
    match parse_host_command(&strings(&["fail-demo"]), &env, &defaults()) {
        HostCommand::FailDemo(args) => {
            assert_eq!(args.n, 52);
            assert_eq!(args.supervisor_path, "default-sup.wasm");
            assert_eq!(args.child_path, "env-child.wasm");
            assert_eq!(args.burn_iters, 99);
        }
        _ => panic!("expected the demo"),
    }
    match parse_host_command(&strings(&["fail-demo", "1", "2", "s", "c", "5"]), &no_env(), &defaults()) {
        HostCommand::FailDemo(args) => {
            assert_eq!(args.retries, 2);
            assert_eq!(args.burn_iters, 5);
        }
        _ => panic!("expected the demo"),
    }
    match parse_host_command(&strings(&["fail-demo"]), &no_env(), &defaults()) {
        HostCommand::FailDemo(args) => assert_eq!(args.burn_iters, 1_700_000),
        _ => panic!("expected the demo"),
    }
}

#[test]
fn names_child_statuses() {
    assert_eq!(child_status_name(5), "result-write-failed");
    assert_eq!(child_status_name(1), "stack-overflow");
    assert_eq!(child_status_name(10), "supervisor-failed");
    assert_eq!(child_status_name(42), "unknown");
}

#[test]
fn run_fib_status_reports_writes() {
    assert_eq!(run_fib_status(Ok(8), true), 0);
    assert_eq!(run_fib_status(Ok(8), false), CHILD_STATUS_RESULT_WRITE_FAILED);
    assert_eq!(run_fib_status(Err(1), true), 1);
}
