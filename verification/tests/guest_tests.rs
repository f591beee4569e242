use wasm_fib::guest::{
    burn, overflow_frame, overflow_unwind, worker_thread_names, OverflowFrame, BURN_ADD, BURN_MUL, BURN_SEED, STOP_AT,
};
use wasm_fib::paths::{default_fail_child_path, default_fail_supervisor_path, default_fib_guest_path, workspace_root};
use wasm_fib::cli::{parse_fib_cli, FibCli, FibMode};

#[test]
fn burn_without_rounds_is_the_seeded_depth() {
    assert_eq!(burn(0, 0), BURN_SEED);
    assert_eq!(burn(5, 0), 5 ^ BURN_SEED);
}

#[test]
fn burn_rounds_mix_the_value() {
    let mut expected = 3u64 ^ BURN_SEED;
    for _ in 0..4 {
        expected = expected.rotate_left(7).wrapping_mul(BURN_MUL).wrapping_add(BURN_ADD);
    }
    assert_eq!(burn(3, 4), expected);
    assert_ne!(burn(3, 4), burn(4, 4));
}

#[test]
fn overflow_recurses_until_the_stop_value() {
    assert_eq!(overflow_frame(7, 2, STOP_AT), OverflowFrame::Recurse { depth: 8 });
    assert_eq!(overflow_frame(u64::MAX, 0, STOP_AT), OverflowFrame::Recurse { depth: 0 });
    let hit = burn(7, 2);
    assert_eq!(overflow_frame(7, 2, hit), OverflowFrame::Return { depth: 7 });
    assert_eq!(overflow_unwind(41), 42);
    assert_eq!(overflow_unwind(u64::MAX), 0);
}

#[test]
fn worker_threads_are_named_after_the_first() {
    assert_eq!(worker_thread_names(3), vec!["guest-async-worker-1", "guest-async-worker-2"]);
    assert!(worker_thread_names(1).is_empty());
    assert!(worker_thread_names(0).is_empty());
}

#[test]
fn default_artifact_paths() {
    assert_eq!(workspace_root("/ws/host"), Some("/ws".to_string()));
    assert_eq!(workspace_root("/"), None);
    assert_eq!(default_fib_guest_path("/ws"), "/ws/target/wasm32-wasip2/release/rust_wasm_fib_guest.wasm");
    assert_eq!(
        default_fail_supervisor_path("/ws"),
        "/ws/target/wasm32-wasip1/release/rust_wasm_fib_guest_fail_supervisor.wasm"
    );
    assert_eq!(default_fail_child_path("/ws"), "/ws/target/wasm32-wasip1/release/rust_wasm_fib_guest_fail_child.wasm");
}

fn strings(items: &[&str]) -> Vec<String> {
    items.iter().map(|s| s.to_string()).collect()
}

#[test]
fn fib_cli_defaults_and_modes() {
    assert_eq!(parse_fib_cli(&strings(&[])), FibCli { n: 52, mode: FibMode::Tasks });
    assert_eq!(parse_fib_cli(&strings(&["40", "threads"])), FibCli { n: 40, mode: FibMode::Threads });
    assert_eq!(parse_fib_cli(&strings(&["abc", "tokio"])), FibCli { n: 52, mode: FibMode::Tasks });
}
