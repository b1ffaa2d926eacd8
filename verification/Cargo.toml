[package]
name = "feverthoth"
version = "0.1.0"
edition = "2021"
publish = false

[dependencies]
serde = { version = "1", features = ["derive"] }
serde_json = "1"
uuid = { version = "1", features = ["v4"] }
chrono = "0.4"
anyhow = "1"
thiserror = "1"
async-trait = "0.1"
tokio = { version = "1", features = ["full"] }
tokio-stream = "0.1"
parking_lot = "0.12"
once_cell = "1"
base64 = "0.22"
dirs = "5"
tracing = "0.1"
lsp-types = "0.97"
reqwest = { version = "0.12", default-features = false, features = ["rustls-tls"] }
ollama-rs = { version = "0.2", features = ["stream"] }
