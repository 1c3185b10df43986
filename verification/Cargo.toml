[package]
name = "ull-fleet-server"
version = "0.1.0"
edition = "2021"
publish = false

[dependencies]
sha2 = "0.10"
axum = "0.8"
tokio = { version = "1", features = ["rt-multi-thread", "macros", "net"] }
rusqlite = "*"
anyhow = "1"
thiserror = "2"
tracing = "0.1"
tracing-subscriber = "0.3"
