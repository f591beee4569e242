//! Decisions of the Fibonacci host: its command line (a `fib` run of the
//! async component, or the stack-overflow supervisor demo), the status
//! codes of the demo's children, and the summary it prints.
//!
//! ```text
//! [n] [workers] [guest-component]
//! fail-demo [n] [retries] [supervisor-module] [child-module] [burn-iterations]
//! ```
//!
//! A missing or unreadable number falls back to its default; missing paths
//! come from the environment, then from the workspace build directory.

use vstd::prelude::*;
use vstd::string::*;
use vstd::utf8::*;
use crate::number::{lemma_parse_unsigned_bounded, parse_u32, parse_u64, parse_usize, spec_parse_unsigned};
use crate::status::{
    STATUS_BAD_EXPORT, STATUS_OK, STATUS_RUNTIME_ERROR, STATUS_STACK_OVERFLOW,
    STATUS_SUPERVISOR_FAILED, STATUS_TRAP, spec_status_name,
};
use crate::text::str_eq;

verus! {

/// The Fibonacci input when none is given.
pub const DEFAULT_N: u64 = 52;
/// The supervisor's attempts when none are given.
pub const DEFAULT_RETRIES: u32 = 3;
/// The busy-work iterations per stack frame of the failing child.
pub const DEFAULT_FAIL_BURN_ITERS: u64 = 1700000;
/// The child ran but its result could not be written into the supervisor.
pub const CHILD_STATUS_RESULT_WRITE_FAILED: i32 = 5;

/// Environment variables that the host consults for missing arguments.
pub struct HostEnv {
    /// `RUST_WASM_FIB_GUEST`
    pub fib_guest: Option<String>,
    /// `RUST_WASM_FIB_FAIL_SUPERVISOR`
    pub fail_supervisor: Option<String>,
    /// `RUST_WASM_FIB_FAIL_CHILD`
    pub fail_child: Option<String>,
    /// `RUST_WASM_FIB_FAIL_BURN_ITERS`
    pub fail_burn_iters: Option<String>,
}

/// Values that the host falls back on last.
pub struct HostDefaults {
    /// The machine's available parallelism (at least 1).
    pub threads: usize,
    pub fib_guest_path: String,
    pub fail_supervisor_path: String,
    pub fail_child_path: String,
}

/// A `fib` run of the async guest component.
pub struct FibArgs {
    pub n: u64,
    pub workers: usize,
    pub wasm_path: String,
}

/// A run of the stack-overflow supervisor demo.
pub struct FailDemoArgs {
    pub n: u64,
    pub retries: u32,
    pub supervisor_path: String,
    pub child_path: String,
    pub burn_iters: u64,
}

/// What the host was asked to do.
pub enum HostCommand {
    Fib(FibArgs),
    FailDemo(FailDemoArgs),
}

/// The contents of a `HostCommand`.
pub enum HostCommandView {
    Fib { n: u64, workers: usize, wasm_path: Seq<char> },
    FailDemo { n: u64, retries: u32, supervisor_path: Seq<char>, child_path: Seq<char>, burn_iters: u64 },
}

impl View for HostCommand {
    type V = HostCommandView;

    open spec fn view(&self) -> HostCommandView {
        match self {
            HostCommand::Fib(a) => HostCommandView::Fib { n: a.n, workers: a.workers, wasm_path: a.wasm_path@ },
            HostCommand::FailDemo(a) => HostCommandView::FailDemo {
                n: a.n,
                retries: a.retries,
                supervisor_path: a.supervisor_path@,
                child_path: a.child_path@,
                burn_iters: a.burn_iters,
            },
        }
    }
}

/// The text of an optional string.
pub open spec fn opt_text(s: Option<String>) -> Option<Seq<char>> {
    match s {
        Some(s) => Some(s@),
        None => None,
    }
}

/// The number that `text` spells, when it spells one up to `max`.
pub open spec fn spec_number(text: Seq<char>, max: nat) -> Option<nat> {
    match spec_parse_unsigned(encode_utf8(text), max) {
        Ok(n) => Some(n),
        Err(_) => None,
    }
}

/// The number that argument `index` spells, if it is there and spells one.
pub open spec fn spec_arg_number(args: Seq<Seq<char>>, index: int, max: nat) -> Option<nat> {
    if 0 <= index < args.len() {
        spec_number(args[index], max)
    } else {
        None
    }
}

/// The first of `first`, `second` that is there, else `last`.
pub open spec fn spec_first_of(first: Option<Seq<char>>, second: Option<Seq<char>>, last: Seq<char>) -> Seq<char> {
    match first {
        Some(t) => t,
        None => match second {
            Some(t) => t,
            None => last,
        },
    }
}

/// Argument `index`, if it is there.
pub open spec fn spec_arg(args: Seq<Seq<char>>, index: int) -> Option<Seq<char>> {
    if 0 <= index < args.len() {
        Some(args[index])
    } else {
        None
    }
}

/// What the host makes of its command line (without the program name).
pub open spec fn spec_parse_host_command(
    args: Seq<Seq<char>>,
    env_fib_guest: Option<Seq<char>>,
    env_fail_supervisor: Option<Seq<char>>,
    env_fail_child: Option<Seq<char>>,
    env_fail_burn_iters: Option<Seq<char>>,
    threads: usize,
    fib_guest_path: Seq<char>,
    fail_supervisor_path: Seq<char>,
    fail_child_path: Seq<char>,
) -> HostCommandView {
    if args.len() > 0 && args[0] == "fail-demo"@ {
        HostCommandView::FailDemo {
            n: match spec_arg_number(args, 1, u64::MAX as nat) {
                Some(n) => n as u64,
                None => DEFAULT_N,
            },
            retries: match spec_arg_number(args, 2, u32::MAX as nat) {
                Some(r) => r as u32,
                None => DEFAULT_RETRIES,
            },
            supervisor_path: spec_first_of(spec_arg(args, 3), env_fail_supervisor, fail_supervisor_path),
            child_path: spec_first_of(spec_arg(args, 4), env_fail_child, fail_child_path),
            burn_iters: match spec_arg_number(args, 5, u64::MAX as nat) {
                Some(b) => b as u64,
                None => match env_fail_burn_iters {
                    Some(text) => match spec_number(text, u64::MAX as nat) {
                        Some(b) => b as u64,
                        None => DEFAULT_FAIL_BURN_ITERS,
                    },
                    None => DEFAULT_FAIL_BURN_ITERS,
                },
            },
        }
    } else {
        HostCommandView::Fib {
            n: match spec_arg_number(args, 0, u64::MAX as nat) {
                Some(n) => n as u64,
                None => DEFAULT_N,
            },
            workers: match spec_arg_number(args, 1, usize::MAX as nat) {
                Some(w) => if w > 0 {
                    w as usize
                } else {
                    threads
                },
                None => threads,
            },
            wasm_path: spec_first_of(spec_arg(args, 2), env_fib_guest, fib_guest_path),
        }
    }
}

/// The `u64` that argument `index` spells, if any.
fn arg_u64(args: &[String], index: usize) -> (n: Option<u64>)
    ensures
        match spec_arg_number(crate::args::arg_texts(args@), index as int, u64::MAX as nat) {
            Some(v) => n == Some(v as u64),
            None => n is None,
        },
{
    if index < args.len() {
        match parse_u64(args[index].as_str()) {
            Ok(v) => Some(v),
            Err(_) => None,
        }
    } else {
        None
    }
}

/// The first of `first`, `second` that is there, else `last`.
fn first_of(first: Option<&String>, second: &Option<String>, last: &String) -> (text: String)
    ensures
        text@ == spec_first_of(
            match first {
                Some(s) => Some(s@),
                None => None,
            },
            opt_text(*second),
            last@,
        ),
{
    match first {
        Some(s) => s.clone(),
        None => match second {
            Some(s) => s.clone(),
            None => last.clone(),
        },
    }
}

/// Argument `index`, if it is there.
fn arg_at(args: &[String], index: usize) -> (a: Option<&String>)
    ensures
        match a {
            Some(s) => spec_arg(crate::args::arg_texts(args@), index as int) == Some(s@),
            None => spec_arg(crate::args::arg_texts(args@), index as int) is None,
        },
{
    if index < args.len() {
        Some(&args[index])
    } else {
        None
    }
}

/// Parses the host's command line (without the program name), falling
/// back on `env` and then on `defaults`.
pub fn parse_host_command(args: &[String], env: &HostEnv, defaults: &HostDefaults) -> (command: HostCommand)
    requires
        defaults.threads >= 1,
    ensures
        command@ == spec_parse_host_command(
            crate::args::arg_texts(args@),
            opt_text(env.fib_guest),
            opt_text(env.fail_supervisor),
            opt_text(env.fail_child),
            opt_text(env.fail_burn_iters),
            defaults.threads,
            defaults.fib_guest_path@,
            defaults.fail_supervisor_path@,
            defaults.fail_child_path@,
        ),
{
    if args.len() > 0 && str_eq(args[0].as_str(), "fail-demo") {
        let n = match arg_u64(args, 1) {
            Some(n) => n,
            None => DEFAULT_N,
        };
        let retries = if args.len() > 2 {
            match parse_u32(args[2].as_str()) {
                Ok(r) => r,
                Err(_) => DEFAULT_RETRIES,
            }
        } else {
            DEFAULT_RETRIES
        };
        let supervisor_path = first_of(arg_at(args, 3), &env.fail_supervisor, &defaults.fail_supervisor_path);
        let child_path = first_of(arg_at(args, 4), &env.fail_child, &defaults.fail_child_path);
        let burn_iters = match arg_u64(args, 5) {
            Some(b) => b,
            None => match &env.fail_burn_iters {
                Some(text) => match parse_u64(text.as_str()) {
                    Ok(b) => b,
                    Err(_) => DEFAULT_FAIL_BURN_ITERS,
                },
                None => DEFAULT_FAIL_BURN_ITERS,
            },
        };
        HostCommand::FailDemo(FailDemoArgs { n, retries, supervisor_path, child_path, burn_iters })
    } else {
        let n = match arg_u64(args, 0) {
            Some(n) => n,
            None => DEFAULT_N,
        };
        let workers = if args.len() > 1 {
            match parse_usize(args[1].as_str()) {
                Ok(w) => if w > 0 {
                    w
                } else {
                    defaults.threads
                },
                Err(_) => defaults.threads,
            }
        } else {
            defaults.threads
        };
        let wasm_path = first_of(arg_at(args, 2), &env.fib_guest, &defaults.fib_guest_path);
        HostCommand::Fib(FibArgs { n, workers, wasm_path })
    }
}

/// How a spawned `fib` task failed; the Fibonacci host classifies its
/// failures (`crate::errors::classify_run_error`) and reports them to the
/// guest (`RunFailure::into_child_status`) as the component runtime does.
pub type FibStatus = crate::status::RunFailure;

/// The printable name of a status code of the demo's children.
pub open spec fn spec_child_status_name(status: i32) -> Seq<char> {
    if status == CHILD_STATUS_RESULT_WRITE_FAILED {
        "result-write-failed"@
    } else {
        spec_status_name(status)
    }
}

/// Names a status code of the demo's children; unknown codes are "unknown".
pub fn child_status_name(status: i32) -> (name: &'static str)
    ensures
        name@ == spec_child_status_name(status),
{
    if status == STATUS_OK {
        "ok"
    } else if status == STATUS_STACK_OVERFLOW {
        "stack-overflow"
    } else if status == STATUS_TRAP {
        "trap"
    } else if status == STATUS_BAD_EXPORT {
        "bad-export"
    } else if status == STATUS_RUNTIME_ERROR {
        "runtime-error"
    } else if status == CHILD_STATUS_RESULT_WRITE_FAILED {
        "result-write-failed"
    } else if status == STATUS_SUPERVISOR_FAILED {
        "supervisor-failed"
    } else {
        "unknown"
    }
}

/// The two hosts name every status code alike, except the demo's own
/// result-write failure.
pub proof fn lemma_status_names_agree(status: i32)
    requires
        status != CHILD_STATUS_RESULT_WRITE_FAILED,
    ensures
        spec_child_status_name(status) == spec_status_name(status),
{
}

/// The status that the supervisor's `run-fib` import returns: the child's
/// failure status, or, for a child that returned a result, whether the
/// result could be written into the supervisor's memory (`write_ok` is only
/// consulted then).
pub fn run_fib_status(child: Result<u64, i32>, write_ok: bool) -> (status: i32)
    ensures
        match child {
            Ok(_) => status == if write_ok {
                STATUS_OK
            } else {
                CHILD_STATUS_RESULT_WRITE_FAILED
            },
            Err(s) => status == s,
        },
{
    match child {
        Ok(_) => if write_ok {
            STATUS_OK
        } else {
            CHILD_STATUS_RESULT_WRITE_FAILED
        },
        Err(s) => s,
    }
}

/// The number that text `t` spells up to `max`, when the parser accepts it.
pub open spec fn spelled(t: Seq<char>, max: nat) -> Option<nat> {
    match spec_parse_unsigned(encode_utf8(t), max) {
        Ok(v) => Some(v),
        Err(_) => None,
    }
}

/// A `fail-demo` command line: each number is taken from its argument when
/// that argument is there and spells one, else the default (for the burn
/// setting, the environment's value comes first); each path is taken from
/// its argument when it is there, else from the environment when that is
/// set, else from the defaults.
pub proof fn lemma_fail_demo_command(
    args: Seq<Seq<char>>,
    env_fib_guest: Option<Seq<char>>,
    env_fail_supervisor: Option<Seq<char>>,
    env_fail_child: Option<Seq<char>>,
    env_fail_burn_iters: Option<Seq<char>>,
    threads: usize,
    fib_guest_path: Seq<char>,
    fail_supervisor_path: Seq<char>,
    fail_child_path: Seq<char>,
)
    requires
        args.len() >= 1,
        args[0] == "fail-demo"@,
    ensures
        spec_parse_host_command(
            args,
            env_fib_guest,
            env_fail_supervisor,
            env_fail_child,
            env_fail_burn_iters,
            threads,
            fib_guest_path,
            fail_supervisor_path,
            fail_child_path,
        ) matches HostCommandView::FailDemo { n, retries, supervisor_path, child_path, burn_iters } && {
            &&& (args.len() > 1 && spelled(args[1], u64::MAX as nat) is Some ==> n == spelled(
                args[1],
                u64::MAX as nat,
            )->0)
            &&& (args.len() <= 1 || spelled(args[1], u64::MAX as nat) is None ==> n == DEFAULT_N)
            &&& (args.len() > 2 && spelled(args[2], u32::MAX as nat) is Some ==> retries == spelled(
                args[2],
                u32::MAX as nat,
            )->0)
            &&& (args.len() <= 2 || spelled(args[2], u32::MAX as nat) is None ==> retries == DEFAULT_RETRIES)
            &&& (args.len() > 3 ==> supervisor_path == args[3])
            &&& (args.len() <= 3 && env_fail_supervisor is Some ==> supervisor_path == env_fail_supervisor->0)
            &&& (args.len() <= 3 && env_fail_supervisor is None ==> supervisor_path == fail_supervisor_path)
            &&& (args.len() > 4 ==> child_path == args[4])
            &&& (args.len() <= 4 && env_fail_child is Some ==> child_path == env_fail_child->0)
            &&& (args.len() <= 4 && env_fail_child is None ==> child_path == fail_child_path)
            &&& (args.len() > 5 && spelled(args[5], u64::MAX as nat) is Some ==> burn_iters == spelled(
                args[5],
                u64::MAX as nat,
            )->0)
            &&& ((args.len() <= 5 || spelled(args[5], u64::MAX as nat) is None) && env_fail_burn_iters is Some
                && spelled(env_fail_burn_iters->0, u64::MAX as nat) is Some ==> burn_iters == spelled(
                env_fail_burn_iters->0,
                u64::MAX as nat,
            )->0)
            &&& ((args.len() <= 5 || spelled(args[5], u64::MAX as nat) is None) && (env_fail_burn_iters is None
                || spelled(env_fail_burn_iters->0, u64::MAX as nat) is None) ==> burn_iters
                == DEFAULT_FAIL_BURN_ITERS)
        },
{
    lemma_parse_unsigned_bounded(encode_utf8(args[1]), u64::MAX as nat);
    if args.len() > 1 {
        lemma_parse_unsigned_bounded(encode_utf8(args[1]), u64::MAX as nat);
    }
    if args.len() > 2 {
        lemma_parse_unsigned_bounded(encode_utf8(args[2]), u32::MAX as nat);
    }
    if args.len() > 5 {
        lemma_parse_unsigned_bounded(encode_utf8(args[5]), u64::MAX as nat);
    }
    if env_fail_burn_iters is Some {
        lemma_parse_unsigned_bounded(encode_utf8(env_fail_burn_iters->0), u64::MAX as nat);
    }
}

/// A Fibonacci command line: `n` is the first argument when it spells a
/// number, else the default; a worker count that is given and spells
/// `w >= 1` is taken as it is, otherwise the machine's parallelism is used;
/// the guest path is the third argument, else the environment's, else the
/// default.
pub proof fn lemma_fib_command(
    args: Seq<Seq<char>>,
    env_fib_guest: Option<Seq<char>>,
    env_fail_supervisor: Option<Seq<char>>,
    env_fail_child: Option<Seq<char>>,
    env_fail_burn_iters: Option<Seq<char>>,
    threads: usize,
    fib_guest_path: Seq<char>,
    fail_supervisor_path: Seq<char>,
    fail_child_path: Seq<char>,
)
    requires
        args.len() == 0 || args[0] != "fail-demo"@,
    ensures
        spec_parse_host_command(
            args,
            env_fib_guest,
            env_fail_supervisor,
            env_fail_child,
            env_fail_burn_iters,
            threads,
            fib_guest_path,
            fail_supervisor_path,
            fail_child_path,
        ) matches HostCommandView::Fib { n, workers, wasm_path } && {
            &&& (args.len() > 0 && spelled(args[0], u64::MAX as nat) is Some ==> n == spelled(
                args[0],
                u64::MAX as nat,
            )->0)
            &&& (args.len() == 0 || spelled(args[0], u64::MAX as nat) is None ==> n == DEFAULT_N)
            &&& (args.len() > 1 && spelled(args[1], usize::MAX as nat) is Some && spelled(
                args[1],
                usize::MAX as nat,
            )->0 >= 1 ==> workers == spelled(args[1], usize::MAX as nat)->0)
            &&& (args.len() <= 1 || spelled(args[1], usize::MAX as nat) is None || spelled(
                args[1],
                usize::MAX as nat,
            ) == Some(0nat) ==> workers == threads)
            &&& (args.len() > 2 ==> wasm_path == args[2])
            &&& (args.len() <= 2 && env_fib_guest is Some ==> wasm_path == env_fib_guest->0)
            &&& (args.len() <= 2 && env_fib_guest is None ==> wasm_path == fib_guest_path)
        },
{
    if args.len() > 0 {
        lemma_parse_unsigned_bounded(encode_utf8(args[0]), u64::MAX as nat);
    }
    if args.len() > 1 {
        lemma_parse_unsigned_bounded(encode_utf8(args[1]), usize::MAX as nat);
    }
}

} // verus!
