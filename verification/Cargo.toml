[package]
name = "flashblocks"
version = "0.1.0"
edition = "2021"
publish = false

[dependencies]
alloy-primitives = "1"
alloy-signer = "1"
alloy-signer-local = "1"
k256 = "0.13"
sha2 = "0.10"
clap = { version = "4", features = ["derive", "env"] }
tokio = { version = "1", features = ["rt-multi-thread", "macros", "net", "sync", "time"] }
tokio-tungstenite = "*"
futures = "0.3"
serde = { version = "1", features = ["derive"] }
serde_json = "1"
eyre = "*"
tracing = "0.1"
reqwest = { version = "*", default-features = false }
humantime = "*"
shellexpand = "*"
url = "2"
chrono = "0.4"
colored = "*"
human_format = "*"

[dev-dependencies]
alloy-sol-types = "1"
