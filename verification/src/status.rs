//! Child status codes, their names, and the classification of failures.

use vstd::prelude::*;
use vstd::string::*;
use vstd::utf8::*;
use crate::text::{ascii_lower_bytes, contains_bytes, contains_subslice, spec_ascii_lower};

verus! {

/// The child ran to completion.
pub const STATUS_OK: i32 = 0;
/// The child exhausted its call stack.
pub const STATUS_STACK_OVERFLOW: i32 = 1;
/// The child trapped for another reason.
pub const STATUS_TRAP: i32 = 2;
/// The child does not export what was asked of it.
pub const STATUS_BAD_EXPORT: i32 = 3;
/// The runtime could not run the child.
pub const STATUS_RUNTIME_ERROR: i32 = 4;
/// The supervisor gave up after its retries.
pub const STATUS_SUPERVISOR_FAILED: i32 = 10;

/// How a child task ended when it did not return a value, as the runtime
/// interface reports it to the guest.
#[derive(Clone, Copy, Debug, PartialEq, Eq)]
pub enum ChildStatus {
    StackOverflow,
    Trap,
    BadExport,
    RuntimeError,
}

/// How a spawned component run failed, as the runtime classifies it.
#[derive(Clone, Copy, Debug, PartialEq, Eq)]
pub enum RunFailure {
    StackOverflow,
    Trap,
    BadExport,
    RuntimeError,
}

impl RunFailure {
    /// The child status that the runtime interface reports for this failure.
    pub open spec fn spec_child_status(self) -> ChildStatus {
        match self {
            RunFailure::StackOverflow => ChildStatus::StackOverflow,
            RunFailure::Trap => ChildStatus::Trap,
            RunFailure::BadExport => ChildStatus::BadExport,
            RunFailure::RuntimeError => ChildStatus::RuntimeError,
        }
    }

    /// Converts the failure into the child status of the runtime interface.
    pub fn into_child_status(self) -> (status: ChildStatus)
        ensures
            status == self.spec_child_status(),
    {
        match self {
            RunFailure::StackOverflow => ChildStatus::StackOverflow,
            RunFailure::Trap => ChildStatus::Trap,
            RunFailure::BadExport => ChildStatus::BadExport,
            RunFailure::RuntimeError => ChildStatus::RuntimeError,
        }
    }
}

/// The printable name of a status code.
pub open spec fn spec_status_name(status: i32) -> Seq<char> {
    if status == STATUS_OK {
        "ok"@
    } else if status == STATUS_STACK_OVERFLOW {
        "stack-overflow"@
    } else if status == STATUS_TRAP {
        "trap"@
    } else if status == STATUS_BAD_EXPORT {
        "bad-export"@
    } else if status == STATUS_RUNTIME_ERROR {
        "runtime-error"@
    } else if status == STATUS_SUPERVISOR_FAILED {
        "supervisor-failed"@
    } else {
        "unknown"@
    }
}

/// Names a status code for reports; codes without a meaning are "unknown".
pub fn status_name(status: i32) -> (name: &'static str)
    ensures
        name@ == spec_status_name(status),
{
    if status == STATUS_OK {
        "ok"
    } else if status == STATUS_STACK_OVERFLOW {
        "stack-overflow"
    } else if status == STATUS_TRAP {
        "trap"
    } else if status == STATUS_BAD_EXPORT {
        "bad-export"
    } else if status == STATUS_RUNTIME_ERROR {
        "runtime-error"
    } else if status == STATUS_SUPERVISOR_FAILED {
        "supervisor-failed"
    } else {
        "unknown"
    }
}

/// The lowercased message mentions an exhausted call stack.
pub open spec fn spec_mentions_stack_overflow(lower: Seq<u8>) -> bool {
    contains_bytes(lower, "call stack exhausted".spec_bytes()) || contains_bytes(
        lower,
        "stack overflow".spec_bytes(),
    )
}

/// The lowercased message says that an export is missing.
pub open spec fn spec_mentions_missing_export(lower: Seq<u8>) -> bool {
    contains_bytes(lower, "does not export".spec_bytes())
}

/// The lowercased UTF-8 bytes of an error message.
pub open spec fn spec_lower_message(message: Seq<char>) -> Seq<u8> {
    spec_ascii_lower(encode_utf8(message))
}

/// How the runtime classifies a failed run: a stack-overflow trap, or a
/// message (compared without regard to ASCII case) that mentions an
/// exhausted stack, is a stack overflow; a message about a missing export
/// is a bad export; any other Wasmtime error is a trap; anything else is a
/// runtime error.
pub open spec fn spec_classify_failure(stack_overflow_trap: bool, message: Seq<char>, wasmtime_error: bool) -> RunFailure {
    let lower = spec_lower_message(message);
    if stack_overflow_trap {
        RunFailure::StackOverflow
    } else if spec_mentions_stack_overflow(lower) {
        RunFailure::StackOverflow
    } else if spec_mentions_missing_export(lower) {
        RunFailure::BadExport
    } else if wasmtime_error {
        RunFailure::Trap
    } else {
        RunFailure::RuntimeError
    }
}

/// Tells whether a lowercased message mentions an exhausted call stack.
fn mentions_stack_overflow(lower: &[u8]) -> (m: bool)
    ensures
        m == spec_mentions_stack_overflow(lower@),
{
    contains_subslice(lower, "call stack exhausted".as_bytes()) || contains_subslice(
        lower,
        "stack overflow".as_bytes(),
    )
}

/// Classifies a failed run from what is known of its error: whether it is
/// a stack-overflow trap, its message, and whether it came from Wasmtime.
pub fn classify_failure(stack_overflow_trap: bool, message: &str, wasmtime_error: bool) -> (failure: RunFailure)
    ensures
        failure == spec_classify_failure(stack_overflow_trap, message@, wasmtime_error),
{
    if stack_overflow_trap {
        return RunFailure::StackOverflow;
    }
    let lower = ascii_lower_bytes(message.as_bytes());
    if mentions_stack_overflow(lower.as_slice()) {
        RunFailure::StackOverflow
    } else if contains_subslice(lower.as_slice(), "does not export".as_bytes()) {
        RunFailure::BadExport
    } else if wasmtime_error {
        RunFailure::Trap
    } else {
        RunFailure::RuntimeError
    }
}

/// The status code that a trapped linked child reports: a stack overflow
/// (by trap or by message) or else a trap.
pub open spec fn spec_classify_child_failure(stack_overflow_trap: bool, message: Seq<char>) -> i32 {
    if stack_overflow_trap || spec_mentions_stack_overflow(spec_lower_message(message)) {
        STATUS_STACK_OVERFLOW
    } else {
        STATUS_TRAP
    }
}

/// Classifies the error of a trapped child into a status code.
pub fn classify_child_failure(stack_overflow_trap: bool, message: &str) -> (status: i32)
    ensures
        status == spec_classify_child_failure(stack_overflow_trap, message@),
{
    if stack_overflow_trap {
        return STATUS_STACK_OVERFLOW;
    }
    let lower = ascii_lower_bytes(message.as_bytes());
    if mentions_stack_overflow(lower.as_slice()) {
        STATUS_STACK_OVERFLOW
    } else {
        STATUS_TRAP
    }
}

/// The status code of a run failure.
pub open spec fn spec_failure_status(failure: RunFailure) -> i32 {
    match failure {
        RunFailure::StackOverflow => STATUS_STACK_OVERFLOW,
        RunFailure::Trap => STATUS_TRAP,
        RunFailure::BadExport => STATUS_BAD_EXPORT,
        RunFailure::RuntimeError => STATUS_RUNTIME_ERROR,
    }
}

/// A trapped child's status agrees with the runtime's classification of
/// the same Wasmtime error unless its message speaks of a missing export.
pub proof fn lemma_child_classification_agrees(stack_overflow_trap: bool, message: Seq<char>)
    requires
        !spec_mentions_missing_export(spec_lower_message(message)),
    ensures
        spec_classify_child_failure(stack_overflow_trap, message) == spec_failure_status(
            spec_classify_failure(stack_overflow_trap, message, true),
        ),
{
}

/// How a failed run is classified, case by case: a stack-overflow trap, or
/// a message that mentions `call stack exhausted` or `stack overflow` in
/// any ASCII case, is a stack overflow; otherwise a message that mentions
/// `does not export` is a bad export; otherwise a Wasmtime error is a trap
/// and anything else a runtime error. A trapped child reports a stack
/// overflow in the same two cases, and a trap otherwise.
pub proof fn lemma_classification(stack_overflow_trap: bool, message: Seq<char>, wasmtime_error: bool)
    ensures
        ({
            let lower = spec_ascii_lower(encode_utf8(message));
            let overflow = stack_overflow_trap || contains_bytes(lower, "call stack exhausted".spec_bytes())
                || contains_bytes(lower, "stack overflow".spec_bytes());
            let missing = contains_bytes(lower, "does not export".spec_bytes());
            &&& (overflow <==> spec_classify_failure(stack_overflow_trap, message, wasmtime_error)
                == RunFailure::StackOverflow)
            &&& (!overflow && missing <==> spec_classify_failure(stack_overflow_trap, message, wasmtime_error)
                == RunFailure::BadExport)
            &&& (!overflow && !missing && wasmtime_error <==> spec_classify_failure(
                stack_overflow_trap,
                message,
                wasmtime_error,
            ) == RunFailure::Trap)
            &&& (!overflow && !missing && !wasmtime_error <==> spec_classify_failure(
                stack_overflow_trap,
                message,
                wasmtime_error,
            ) == RunFailure::RuntimeError)
            &&& (overflow <==> spec_classify_child_failure(stack_overflow_trap, message) == STATUS_STACK_OVERFLOW)
            &&& (!overflow <==> spec_classify_child_failure(stack_overflow_trap, message) == STATUS_TRAP)
        }),
{
}

} // verus!
