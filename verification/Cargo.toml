[package]
name = "cortexos"
version = "0.1.0"
edition = "2021"
publish = false

[dependencies]
uuid = { version = "1", features = ["v4", "v7", "serde"] }
chrono = "0.4"
sha2 = "0.10"
regex = "1"
toml = "0.8"
serde = { version = "1", features = ["derive"] }
serde_json = "1"
thiserror = "1"
rusqlite = { version = "0.31", features = ["bundled"] }
parking_lot = "0.12"
tokio = { version = "1", features = ["sync", "time", "rt", "rt-multi-thread", "macros"] }
tracing = "0.1"
async-trait = "0.1"
base64 = "0.22"

[dev-dependencies]
tempfile = "3"
