[package]
name = "rpc_dispatch"
version = "0.1.0"
edition = "2021"
publish = false

[dependencies]
axum = "=0.8.9"
derive_more = { version = "=2.1.1", features = ["from"] }
genai = "=0.7.1"
regex = "=1.13.1"
reqwest = { version = "=0.13.5", default-features = false, features = ["json"] }
rpc-router = "=0.2.0"
serde = { version = "=1.0.229", features = ["derive"] }
serde_json = { version = "=1.0.154", features = ["preserve_order"] }
serde_with = "=3.24.0"
tokio = { version = "=1.54.1", features = ["full"] }
tower-cookies = "=0.11.0"
tracing = "=0.1.44"
tracing-subscriber = { version = "=0.3.23", features = ["env-filter"] }
uuid = { version = "=1.29.0", features = ["v4", "serde"] }
