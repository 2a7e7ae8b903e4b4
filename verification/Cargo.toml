[package]
name = "hermit"
version = "0.1.0"
edition = "2021"
publish = false

[dependencies]
ring = "=0.17.14"
serde = { version = "=1.0.229", features = ["derive"] }
serde_with = { version = "=3.24.0", features = ["chrono"] }
ciborium = "=0.2.2"
ciborium-io = "=0.2.2"
chrono = "=0.4.45"
async-std = "=1.13.2"
futures = "=0.3.34"
thiserror = "=1.0.69"
