[package]
name = "proof_publisher"
version = "0.1.0"
edition = "2021"
publish = false

[dependencies]
alloy-primitives = { version = "0.8", default-features = false, features = ["std"] }
alloy-sol-types = { version = "0.8", default-features = false, features = ["std"] }
anyhow = "1.0"
clap = { version = "4", features = ["derive", "env"] }
env_logger = "0.10"
k256 = "0.13"
log = "0.4"
risc0-zkvm = { version = "1.2", default-features = false, features = ["std"] }
tokio = { version = "1", features = ["rt-multi-thread"] }
