[package]
name = "wasm_fib"
version = "0.1.0"
edition = "2021"
publish = false

[dependencies]
anyhow = "=1.0.104"
wasmtime = { version = "=36.0.20", default-features = false, features = ["runtime", "cranelift", "component-model", "component-model-async", "async", "std"] }
wasmtime-wasi = "=36.0.20"
tokio = { version = "=1.54.1", features = ["rt-multi-thread", "sync", "macros"] }
kanal = "=0.1.1"
async-recursion = "=1.2.0"
async-executor = "=1.14.1"
futures-lite = "=2.6.1"
wit-bindgen = "=0.63.0"
syn = { version = "=2.0.119", features = ["full"] }
quote = "=1.0.47"
proc-macro2 = "=1.0.107"
