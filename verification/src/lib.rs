//! Verified core of a parallel Fibonacci runtime hosted on WebAssembly
//! components: the Fibonacci arithmetic and its fork/join plan, the `u64`
//! payload codec, child status codes and failure classification, the
//! supervisor retry protocol, and the command-line grammars of the hosts.

pub mod args;
pub mod child_run;
pub mod cli;
pub mod codec;
pub mod component_gen;
pub mod errors;
pub mod fib;
pub mod fib_host;
pub mod guest;
pub mod number;
pub mod paths;
pub mod reports;
pub mod status;
pub mod supervisor;
pub mod text;
