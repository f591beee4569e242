//! The summaries that the hosts print after a run.

use vstd::prelude::*;
use vstd::string::*;
use crate::fib_host::{child_status_name, spec_child_status_name};
use crate::number::{format_i64, format_u64, spec_decimal, spec_signed_decimal};
use crate::status::{spec_status_name, status_name, STATUS_OK};

verus! {

/// `prefix` followed by the decimal spelling of `value`.
pub open spec fn spec_value_line(prefix: Seq<char>, value: nat) -> Seq<char> {
    prefix + spec_decimal(value)
}

/// `prefix`, the status code, and its name in parentheses.
pub open spec fn spec_status_line(prefix: Seq<char>, status: i32, name: Seq<char>) -> Seq<char> {
    prefix + spec_signed_decimal(status as int) + " ("@ + name + ")"@
}

/// Builds `prefix` followed by the decimal spelling of `value`.
fn value_line(prefix: &str, value: u64) -> (line: String)
    ensures
        line@ == spec_value_line(prefix@, value as nat),
{
    let mut line = String::from_str(prefix);
    line.append(format_u64(value).as_str());
    line
}

/// Builds `prefix`, the status code, and its name in parentheses.
fn status_line(prefix: &str, status: i32, name: &str) -> (line: String)
    ensures
        line@ == spec_status_line(prefix@, status, name@),
{
    let mut line = String::from_str(prefix);
    line.append(format_i64(status as i64).as_str());
    line.append(" (");
    line.append(name);
    line.append(")");
    line
}

/// The lines that the spawn-link host prints once the supervisor returned.
pub open spec fn spec_spawn_link_report(
    supervisor_status: i32,
    attempts: u32,
    init_arg: Option<u64>,
    child_status: i32,
    result: u64,
) -> Seq<Seq<char>> {
    seq![
        spec_status_line("Supervisor exit status = "@, supervisor_status, spec_status_name(supervisor_status)),
        spec_value_line("Spawn attempts = "@, attempts as nat),
    ] + match init_arg {
        Some(arg) => seq![spec_value_line("Child init argument = "@, arg as nat)],
        None => Seq::<Seq<char>>::empty(),
    } + seq![
        spec_status_line("Linked child status = "@, child_status, spec_status_name(child_status)),
        if supervisor_status == STATUS_OK {
            spec_value_line("Result = "@, result as nat)
        } else {
            "Runtime survived linked child traps; supervisor reported failure after retries."@
        },
    ]
}

/// The texts of a list of lines.
pub open spec fn line_texts(lines: Seq<String>) -> Seq<Seq<char>> {
    lines.map_values(|s: String| s@)
}

/// Builds the summary of a spawn-link run: the supervisor's status, its
/// attempts, the child init argument when there was an init, the last
/// child's status, and the result or the notice that the runtime survived
/// the failed children.
pub fn spawn_link_report(
    supervisor_status: i32,
    attempts: u32,
    init_arg: Option<u64>,
    child_status: i32,
    result: u64,
) -> (lines: Vec<String>)
    ensures
        line_texts(lines@) == spec_spawn_link_report(supervisor_status, attempts, init_arg, child_status, result),
{
    let mut lines: Vec<String> = Vec::new();
    lines.push(status_line("Supervisor exit status = ", supervisor_status, status_name(supervisor_status)));
    lines.push(value_line("Spawn attempts = ", attempts as u64));
    match init_arg {
        Some(arg) => {
            lines.push(value_line("Child init argument = ", arg));
        },
        None => {},
    }
    lines.push(status_line("Linked child status = ", child_status, status_name(child_status)));
    if supervisor_status == STATUS_OK {
        lines.push(value_line("Result = ", result));
    } else {
        lines.push(
            String::from_str("Runtime survived linked child traps; supervisor reported failure after retries."),
        );
    }
    proof {
        assert(line_texts(lines@) =~= spec_spawn_link_report(
            supervisor_status,
            attempts,
            init_arg,
            child_status,
            result,
        ));
    }
    lines
}

/// The lines that the Fibonacci host prints after its supervisor demo.
pub open spec fn spec_fail_demo_report(
    n: u64,
    supervisor_status: i32,
    attempts: u32,
    burn_iters: u64,
    child_status: i32,
    result: u64,
) -> Seq<Seq<char>> {
    seq![
        spec_status_line("Supervisor status = "@, supervisor_status, spec_child_status_name(supervisor_status)),
        spec_value_line("Supervisor attempts = "@, attempts as nat),
        spec_value_line("Child burn iterations/frame = "@, burn_iters as nat),
        spec_status_line("Last child status = "@, child_status, spec_child_status_name(child_status)),
        if supervisor_status == STATUS_OK {
            spec_fib_line("Fib "@, n, result)
        } else {
            "Runtime survived child traps; supervisor reported failure after retries."@
        },
    ]
}

/// `prefix`, `n`, ` = ` and `value`: the line that announces `fib(n)`.
pub open spec fn spec_fib_line(prefix: Seq<char>, n: u64, value: u64) -> Seq<char> {
    prefix + spec_decimal(n as nat) + " = "@ + spec_decimal(value as nat)
}

/// Builds the line that announces `fib(n) = value`, after `prefix`.
pub fn fib_line(prefix: &str, n: u64, value: u64) -> (line: String)
    ensures
        line@ == spec_fib_line(prefix@, n, value),
{
    let mut line = String::from_str(prefix);
    line.append(format_u64(n).as_str());
    line.append(" = ");
    line.append(format_u64(value).as_str());
    line
}

/// Builds the summary of the supervisor demo: the supervisor's status and
/// attempts, the child's busy-work setting, the last child's status, and
/// `fib(n)` or the notice that the runtime survived the failed children.
pub fn fail_demo_report(
    n: u64,
    supervisor_status: i32,
    attempts: u32,
    burn_iters: u64,
    child_status: i32,
    result: u64,
) -> (lines: Vec<String>)
    ensures
        line_texts(lines@) == spec_fail_demo_report(n, supervisor_status, attempts, burn_iters, child_status, result),
{
    let mut lines: Vec<String> = Vec::new();
    lines.push(status_line("Supervisor status = ", supervisor_status, child_status_name(supervisor_status)));
    lines.push(value_line("Supervisor attempts = ", attempts as u64));
    lines.push(value_line("Child burn iterations/frame = ", burn_iters));
    lines.push(status_line("Last child status = ", child_status, child_status_name(child_status)));
    if supervisor_status == STATUS_OK {
        lines.push(fib_line("Fib ", n, result));
    } else {
        lines.push(String::from_str("Runtime survived child traps; supervisor reported failure after retries."));
    }
    proof {
        assert(line_texts(lines@) =~= spec_fail_demo_report(
            n,
            supervisor_status,
            attempts,
            burn_iters,
            child_status,
            result,
        ));
    }
    lines
}

} // verus!
