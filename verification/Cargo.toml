[package]
name = "autd3-link-ethercrab"
version = "0.1.0"
edition = "2021"
publish = false

[dependencies]
async-channel = "=2.5.0"
autd3-core = { version = "=31.0.1", features = ["link", "async"] }
autd3-driver = "=28.1.0"
ethercrab = { version = "=0.5.7", features = ["std"] }
ta = "=0.5.0"
thiserror = "=2.0.21"
tokio = { version = "=1.54.1", features = ["full"] }
tracing = "=0.1.44"
