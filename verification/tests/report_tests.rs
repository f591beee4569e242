use wasm_fib::reports::{fail_demo_report, fib_line, spawn_link_report};

#[test]
fn spawn_link_success_report() {
    assert_eq!(
        spawn_link_report(0, 2, Some(1_700_000), 0, 55),
        vec![
            "Supervisor exit status = 0 (ok)",
            "Spawn attempts = 2",
            "Child init argument = 1700000",
            "Linked child status = 0 (ok)",
            "Result = 55",
        ]
    );
}

#[test]
fn spawn_link_failure_report() {
    assert_eq!(
        spawn_link_report(10, 3, None, 1, 0),
        vec![
            "Supervisor exit status = 10 (supervisor-failed)",
            "Spawn attempts = 3",
            "Linked child status = 1 (stack-overflow)",
            "Runtime survived linked child traps; supervisor reported failure after retries.",
        ]
    );
    assert_eq!(spawn_link_report(-3, 0, None, 7, 0)[0], "Supervisor exit status = -3 (unknown)");
}

#[test]
fn fail_demo_reports() {
    assert_eq!(
        fail_demo_report(52, 10, 3, 1_700_000, 5, 0),
        vec![
            "Supervisor status = 10 (supervisor-failed)",
            "Supervisor attempts = 3",
            "Child burn iterations/frame = 1700000",
            "Last child status = 5 (result-write-failed)",
            "Runtime survived child traps; supervisor reported failure after retries.",
        ]
    );
    assert_eq!(fail_demo_report(10, 0, 1, 0, 0, 55)[4], "Fib 10 = 55");
}

#[test]
fn fib_lines() {
    assert_eq!(fib_line("Fib ", 35, 9_227_465), "Fib 35 = 9227465");
    assert_eq!(fib_line("fib ", 0, 0), "fib 0 = 0");
}
