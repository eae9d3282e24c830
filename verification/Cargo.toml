[package]
name = "tradeassembly-runtime"
version = "0.1.0"
edition = "2021"
publish = false

[dependencies]
async-nats = "*"
base64 = "0.22"
chrono = { version = "0.4", default-features = false, features = ["std"] }
clap = { version = "4", features = ["derive"] }
futures-util = "0.3"
postgres = "0.19"
rand = "0.8"
reqwest = { version = "0.12", default-features = false, features = ["blocking", "json"] }
serde = { version = "1", features = ["derive"] }
serde_json = "1"
serde_json_canonicalizer = "*"
sha2 = "0.10"
tokio = { version = "1", features = ["rt-multi-thread", "time"] }
