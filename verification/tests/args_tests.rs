use wasm_fib::args::{invalid_value_message, parse_command, ArgError, Command};
use wasm_fib::number::IntErrorKind;

fn strings(items: &[&str]) -> Vec<String> {
    items.iter().map(|s| s.to_string()).collect()
}

#[test]
fn parses_run_with_defaults() {
    let args = strings(&["run-u64", "guest.wasm", "fib", "35"]);
    match parse_command(&args, 8) {
        Ok(Command::Run(run)) => {
            assert_eq!(run.component_path, "guest.wasm");
            assert_eq!(run.function, "fib");
            assert_eq!(run.arg, 35);
            assert_eq!(run.workers, 8);
            assert_eq!(run.runtime_import, "rust-wasm-runtime:process/runtime");
        }
        _ => panic!("expected a run command"),
    }
}

#[test]
fn zero_workers_means_default() {
    let args = strings(&["run-u64", "g", "f", "1", "0", "my:pkg/runtime"]);
    match parse_command(&args, 3) {
        Ok(Command::Run(run)) => {
            assert_eq!(run.workers, 3);
            assert_eq!(run.runtime_import, "my:pkg/runtime");
        }
        _ => panic!("expected a run command"),
    }
    let args = strings(&["run-u64", "g", "f", "1", "6"]);
    match parse_command(&args, 3) {
        Ok(Command::Run(run)) => assert_eq!(run.workers, 6),
        _ => panic!("expected a run command"),
    }
}

#[test]
fn invalid_workers_is_an_error() {
    let args = strings(&["run-u64", "g", "f", "1", "many"]);
    match parse_command(&args, 3) {
        Err(err) => {
            match &err {
                ArgError::Invalid { name, value, kind } => {
                    assert_eq!(name, "workers");
                    assert_eq!(value, "many");
                    assert_eq!(*kind, IntErrorKind::InvalidDigit);
                }
                _ => panic!("expected an invalid value"),
            }
            assert_eq!(err.message(), "invalid workers value \"many\": invalid digit found in string");
        }
        Ok(_) => panic!("expected an error"),
    }
}

#[test]
fn missing_argument_is_named() {
    let args = strings(&["run-u64", "g"]);
    match parse_command(&args, 1) {
        Err(err) => assert_eq!(err.message(), "missing argument: function"),
        Ok(_) => panic!("expected an error"),
    }
    let args = strings(&["spawn-link-u64", "s", "sf", "c", "cf", "52", "3", "init"]);
    match parse_command(&args, 1) {
        Err(err) => assert_eq!(err.message(), "missing argument: child-init-arg"),
        Ok(_) => panic!("expected an error"),
    }
}

#[test]
fn unknown_command_gives_usage() {
    for args in [strings(&[]), strings(&["fib"])] {
        match parse_command(&args, 1) {
            Err(err) => {
                assert!(matches!(err, ArgError::Usage));
                assert!(err.message().starts_with("usage:\n  run-u64 <component>"));
            }
            Ok(_) => panic!("expected usage"),
        }
    }
}

#[test]
fn parses_spawn_link_and_its_alias() {
    for command in ["spawn-link-u64", "supervise-u64"] {
        let args = strings(&[command, "sup.wasm", "supervise", "child.wasm", "fib", "52", "3", "-", "0"]);
        match parse_command(&args, 1) {
            Ok(Command::SpawnLink(link)) => {
                assert_eq!(link.supervisor_path, "sup.wasm");
                assert_eq!(link.supervisor_function, "supervise");
                assert_eq!(link.child_path, "child.wasm");
                assert_eq!(link.child_function, "fib");
                assert_eq!(link.arg, 52);
                assert_eq!(link.retries, 3);
                assert!(link.child_init.is_none());
                assert_eq!(link.runtime_import, "rust-wasm-runtime:supervisor/runtime");
                assert_eq!(link.runtime_function, "spawn-link");
            }
            _ => panic!("expected a spawn-link command"),
        }
    }
}

#[test]
fn child_init_is_kept_unless_dash() {
    let args = strings(&["spawn-link-u64", "s", "sf", "c", "cf", "52", "3", "init", "1700000", "imp", "run"]);
    match parse_command(&args, 1) {
        Ok(Command::SpawnLink(link)) => {
            let init = link.child_init.expect("init");
            assert_eq!(init.function, "init");
            assert_eq!(init.arg, 1_700_000);
            assert_eq!(link.runtime_import, "imp");
            assert_eq!(link.runtime_function, "run");
        }
        _ => panic!("expected a spawn-link command"),
    }
}

#[test]
fn retries_out_of_range_is_an_error() {
    let args = strings(&["spawn-link-u64", "s", "sf", "c", "cf", "52", "4294967296", "-", "0"]);
    match parse_command(&args, 1) {
        Err(err) => assert_eq!(err.message(), "invalid retries value \"4294967296\": number too large to fit in target type"),
        Ok(_) => panic!("expected an error"),
    }
}

#[test]
fn writes_invalid_value_message() {
    assert_eq!(
        invalid_value_message("retries", "\"x\"", IntErrorKind::InvalidDigit),
        "invalid retries value \"x\": invalid digit found in string"
    );
}
