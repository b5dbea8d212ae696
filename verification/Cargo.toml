[package]
name = "gt7_telemetry"
version = "0.1.0"
edition = "2021"
publish = false

[dependencies]
axum = { version = "0.8", features = ["ws"] }
bitflags = "2"
byteorder = "1"
env_logger = "0.11"
futures-util = "0.3"
kafka = { version = "0.10", default-features = false }
log = "0.4"
pulsar = { version = "6", default-features = false, features = ["tokio-runtime"] }
salsa20 = "0.10"
serde = { version = "1", features = ["derive"] }
serde_json = "1"
thiserror = "1"
tokio = { version = "1", features = ["full"] }
