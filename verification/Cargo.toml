[package]
name = "swarmnode"
version = "0.1.0"
edition = "2021"
publish = false

[dependencies]
serde = { version = "=1.0.229", features = ["derive"] }
serde_json = "=1.0.151"
reqwest = { version = "=0.13.5", default-features = false, features = ["json", "query"] }
tokio = { version = "=1.53.2", features = ["rt", "macros"] }
tokio-tungstenite = "=0.30.0"
futures-util = "=0.3.34"
async-stream = "=0.3.6"
