//! The command line of the native Fibonacci program: `[n] [mode]`, where
//! the mode `threads` selects the thread-based variant and anything else
//! the async task variant.

use vstd::prelude::*;
use vstd::utf8::*;
use crate::fib_host::{spec_arg_number, spelled};
use crate::number::lemma_parse_unsigned_bounded;
use crate::number::parse_u64;
use crate::text::str_eq;

verus! {

/// The input when none (or no number) is given.
pub const DEFAULT_CLI_N: u64 = 52;

/// Which parallel variant computes the result.
#[derive(Clone, Copy, Debug, PartialEq, Eq)]
pub enum FibMode {
    /// Async tasks on a multi-threaded runtime.
    Tasks,
    /// OS threads joined through channels.
    Threads,
}

/// A parsed command line.
#[derive(Clone, Copy, Debug, PartialEq, Eq)]
pub struct FibCli {
    pub n: u64,
    pub mode: FibMode,
}

/// What the program makes of its command line (without the program name).
pub open spec fn spec_parse_fib_cli(args: Seq<Seq<char>>) -> FibCli {
    FibCli {
        n: match spec_arg_number(args, 0, u64::MAX as nat) {
            Some(n) => n as u64,
            None => DEFAULT_CLI_N,
        },
        mode: if args.len() > 1 && args[1] == "threads"@ {
            FibMode::Threads
        } else {
            FibMode::Tasks
        },
    }
}

/// Parses the command line (without the program name).
pub fn parse_fib_cli(args: &[String]) -> (cli: FibCli)
    ensures
        cli == spec_parse_fib_cli(crate::args::arg_texts(args@)),
{
    let n = if args.len() > 0 {
        match parse_u64(args[0].as_str()) {
            Ok(n) => n,
            Err(_) => DEFAULT_CLI_N,
        }
    } else {
        DEFAULT_CLI_N
    };
    let mode = if args.len() > 1 && str_eq(args[1].as_str(), "threads") {
        FibMode::Threads
    } else {
        FibMode::Tasks
    };
    FibCli { n, mode }
}

/// `n` is the number that the first argument spells, whatever follows it,
/// and the default when there is no first argument or it spells none; the
/// thread variant is chosen exactly when the second argument is `threads`.
pub proof fn lemma_fib_cli(args: Seq<Seq<char>>)
    ensures
        args.len() > 0 && spelled(args[0], u64::MAX as nat) is Some ==> spec_parse_fib_cli(args).n == spelled(
            args[0],
            u64::MAX as nat,
        )->0,
        args.len() == 0 || spelled(args[0], u64::MAX as nat) is None ==> spec_parse_fib_cli(args).n
            == DEFAULT_CLI_N,
        spec_parse_fib_cli(args).mode == FibMode::Threads <==> (args.len() > 1 && args[1] == "threads"@),
        args.len() > 0 ==> spec_parse_fib_cli(args).n == spec_parse_fib_cli(args.take(1)).n,
{
    if args.len() > 0 {
        lemma_parse_unsigned_bounded(encode_utf8(args[0]), u64::MAX as nat);
        assert(args.take(1)[0] == args[0]);
    }
}

} // verus!
