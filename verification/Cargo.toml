[package]
name = "ddns_sandbox"
version = "0.1.0"
edition = "2021"
publish = false

[dependencies]
ahash = "=0.8.12"
anyhow = "=1.0.104"
atoi = "=2.0.0"
dashmap = "=6.2.1"
idna = "=1.1.0"
interprocess = { version = "=2.4.7", features = ["tokio"] }
itoa = "=1.0.18"
parking_lot = "=0.12.5"
tempfile = "=3.27.0"
tokio = { version = "=1.54.1", features = ["full"] }
uuid = { version = "1", features = ["v4"] }
wasi-common = { version = "=25.0.3", features = ["tokio"] }
wasmtime = { version = "=25.0.3", default-features = false, features = ["async", "cranelift", "gc", "memory-protection-keys", "parallel-compilation", "pooling-allocator", "runtime", "std"] }
wiggle = "=25.0.3"

[dev-dependencies]
bincode = "=2.0.1"
