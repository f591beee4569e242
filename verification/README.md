# wasm_fib

A parallel Fibonacci runtime on WebAssembly components, with its logic
verified by Verus.

- `src/` is the verified library: the Fibonacci kernel and its fork/join
  plan, the `u64` payload codec, child status codes and the classification
  of failed runs, the supervisor's retry protocol, the hosts' command lines
  and reports, the start-up stages of child instances, and the decisions of
  the component macros (WIT text, configuration, exports, callables).
- `app/` holds what runs around it: the native Fibonacci program, the
  Wasmtime hosts, the guest drivers, the guest-side runtime client and the
  macros' token generation. Its decisions (parsing, stage transitions,
  retries, classification, reports, generated names) are calls into
  `src/`; what is left there is Wasmtime, WASI, threads, tasks and I/O.
- `tests/` exercises the library on concrete values.

Calls into `anyhow`, Wasmtime and std that the library needs go through a
few trusted wrappers in `src/errors.rs`, `src/paths.rs`, `src/args.rs` and
`src/guest.rs`; each states what the outside function gives.
