[package]
name = "rust_servers"
version = "0.1.0"
edition = "2021"
publish = false

[dependencies]
anyhow = "1"
async-trait = "*"
futures-util = { version = "*", features = ["sink"] }
thiserror = "*"
tokio = { version = "1", features = ["full"] }
tokio-tungstenite = "*"
tracing = "*"
tracing-subscriber = "*"
tungstenite = "*"
