[package]
name = "stationuli_core"
version = "0.1.0"
edition = "2021"
publish = false

[dependencies]
base64 = "0.22"
hostname = "0.4"
image = { version = "0.24", default-features = false, features = ["jpeg"] }
serde = { version = "1", features = ["derive"] }
serde_json = "1"
thiserror = "1"
tokio = { version = "1", features = ["net", "io-util", "sync", "time", "rt", "fs"] }
tracing = "0.1"
urlencoding = "2"
