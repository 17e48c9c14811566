[package]
name = "zkvm_orchestrator"
version = "0.1.0"
edition = "2021"
publish = false

[dependencies]
anyhow = "=1.0.104"
pyo3 = "=0.21.2"
risc0-binfmt = "=0.19.1"
risc0-zkp = { version = "=0.19.1", default-features = false }
risc0-zkvm = { version = "=0.19.1", default-features = false, features = ["std"] }
risc0-zkvm-platform = "=0.19.1"
