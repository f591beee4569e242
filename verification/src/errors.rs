//! Errors of the hosts: `anyhow::Error` values (which Wasmtime uses as its
//! error type), their classification into run failures and child statuses,
//! and contexts attached to Wasmtime errors.

use vstd::prelude::*;
use vstd::string::*;
use crate::status::{
    classify_child_failure, classify_failure, spec_classify_child_failure,
    spec_classify_failure, RunFailure,
};

verus! {

#[verifier::external_type_specification]
#[verifier::external_body]
pub struct ExAnyhowError(anyhow::Error);

/// Whether the error holds a `wasmtime::Trap::StackOverflow`.
pub uninterp spec fn error_stack_overflow_trap(error: anyhow::Error) -> bool;

/// The error's `Display` text: its outermost message.
pub uninterp spec fn error_display_text(error: anyhow::Error) -> Seq<char>;

/// Whether the error downcasts to a `wasmtime::Error`.
pub uninterp spec fn error_wraps_wasmtime_error(error: anyhow::Error) -> bool;

/// Calls `anyhow::Error::downcast_ref::<wasmtime::Trap>` and tells whether
/// the error is a `Trap::StackOverflow`; the answer depends on the error
/// value alone and is named `error_stack_overflow_trap`.
#[verifier::external_body]
fn is_stack_overflow_trap(error: &anyhow::Error) -> (r: bool)
    ensures
        r == error_stack_overflow_trap(*error),
{
    matches!(error.downcast_ref::<wasmtime::Trap>(), Some(wasmtime::Trap::StackOverflow))
}

/// Calls `ToString::to_string` on the error, which gives its outermost
/// message (anyhow's `Display`); the text is named `error_display_text`.
#[verifier::external_body]
fn error_message(error: &anyhow::Error) -> (r: String)
    ensures
        r@ == error_display_text(*error),
{
    error.to_string()
}

/// Calls `anyhow::Error::downcast_ref::<wasmtime::Error>` and tells whether
/// it found one; the answer is named `error_wraps_wasmtime_error`.
#[verifier::external_body]
fn is_wasmtime_error(error: &anyhow::Error) -> (r: bool)
    ensures
        r == error_wraps_wasmtime_error(*error),
{
    error.downcast_ref::<wasmtime::Error>().is_some()
}

/// Formats the error with `{:?}` (anyhow's `Debug`): its `Display` text
/// first, then its causes, then a backtrace when one was captured. Only
/// the first part is stated: whether a backtrace is captured, and how it
/// reads, depend on the environment and the process.
#[verifier::external_body]
fn error_debug(error: &anyhow::Error) -> (text: String)
    ensures
        exists|rest: Seq<char>| text@ == error_display_text(*error) + rest,
{
    format!("{:?}", error)
}

/// Calls `anyhow::Error::msg` on a message; the new error displays exactly
/// that message, and it holds only the message: it downcasts neither to a
/// `wasmtime::Trap` nor to a `wasmtime::Error`.
#[verifier::external_body]
fn error_from_message(message: String) -> (error: anyhow::Error)
    ensures
        error_display_text(error) == message@,
        !error_stack_overflow_trap(error),
        !error_wraps_wasmtime_error(error),
{
    anyhow::Error::msg(message)
}

/// Classifies the error of a failed component run: the facts read from the
/// error (a stack-overflow trap, its message, whether it is a Wasmtime
/// error) go through `spec_classify_failure`.
pub fn classify_run_error(error: &anyhow::Error) -> (failure: RunFailure)
    ensures
        failure == spec_classify_failure(
            error_stack_overflow_trap(*error),
            error_display_text(*error),
            error_wraps_wasmtime_error(*error),
        ),
{
    let trap = is_stack_overflow_trap(error);
    let message = error_message(error);
    let wasmtime_error = is_wasmtime_error(error);
    classify_failure(trap, message.as_str(), wasmtime_error)
}

/// Classifies the error of a trapped child into a status code, through
/// `spec_classify_child_failure`.
pub fn classify_child_error(error: &anyhow::Error) -> (status: i32)
    ensures
        status == spec_classify_child_failure(error_stack_overflow_trap(*error), error_display_text(*error)),
{
    let trap = is_stack_overflow_trap(error);
    let message = error_message(error);
    classify_child_failure(trap, message.as_str())
}

/// The message of an error wrapped with the context of a failed step:
/// the context, `": "`, and the old error's `Debug` text.
pub open spec fn spec_context_message(context: Seq<char>, debug_text: Seq<char>) -> Seq<char> {
    context + ": "@ + debug_text
}

/// Attaches `context` to the error of a failed Wasmtime step: the new
/// error's message is the context, `": "` and the old error's `Debug`
/// text, which begins with the old error's message; the new error is
/// classified by its message alone. A success passes
/// through unchanged.
pub fn with_wasmtime_context<T>(result: Result<T, anyhow::Error>, context: &str) -> (out: Result<T, anyhow::Error>)
    ensures
        result is Ok <==> out is Ok,
        result is Ok ==> out == result,
        result is Err ==> exists|rest: Seq<char>|
            error_display_text(out->Err_0) == spec_context_message(
                context@,
                error_display_text(result->Err_0) + rest,
            ),
        result is Err ==> !error_stack_overflow_trap(out->Err_0) && !error_wraps_wasmtime_error(out->Err_0),
{
    match result {
        Ok(value) => Ok(value),
        Err(error) => {
            let mut message = String::from_str(context);
            message.append(": ");
            let debug_text = error_debug(&error);
            message.append(debug_text.as_str());
            let wrapped = error_from_message(message);
            proof {
                let rest = choose|rest: Seq<char>| debug_text@ == error_display_text(error) + rest;
                assert(error_display_text(wrapped) == spec_context_message(
                    context@,
                    error_display_text(error) + rest,
                ));
            }
            Err(wrapped)
        },
    }
}

/// An error that `with_wasmtime_context` made is classified by its message
/// alone, as a non-Wasmtime error that is no trap.
pub proof fn lemma_context_error_classified_by_message(error: anyhow::Error)
    requires
        !error_stack_overflow_trap(error),
        !error_wraps_wasmtime_error(error),
    ensures
        spec_classify_failure(
            error_stack_overflow_trap(error),
            error_display_text(error),
            error_wraps_wasmtime_error(error),
        ) == spec_classify_failure(false, error_display_text(error), false),
        spec_classify_child_failure(error_stack_overflow_trap(error), error_display_text(error))
            == spec_classify_child_failure(false, error_display_text(error)),
{
}

} // verus!
