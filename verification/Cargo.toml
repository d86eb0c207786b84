[package]
name = "wasm_runner"
version = "0.1.0"
edition = "2021"
publish = false

[dependencies]
anyhow = "=1.0.104"
clap = { version = "=4.6.7", features = ["derive"] }
nix = { version = "=0.31.3", features = ["signal"] }
num_cpus = "=1.17.0"
rand = "=0.8.8"
serde_json = "=1.0.154"
vm-fdt = "=0.3.0"
wasmtime = { version = "=45.0.3", default-features = false, features = ["anyhow", "cranelift", "runtime", "threads", "coredump", "std"] }
