[package]
name = "corro"
version = "0.1.0"
edition = "2021"
publish = false

[dependencies]
anyhow = "1"
async-trait = "*"
axum = "*"
bytes = "1"
chrono = { version = "*", features = ["serde"] }
config = "*"
serde = { version = "1", features = ["derive"] }
serde_json = "1"
thiserror = "*"
tokio = { version = "1", features = ["full"] }
tower-http = { version = "*", features = ["catch-panic", "trace"] }
tracing = "*"
tracing-subscriber = { version = "*", features = ["env-filter", "json"] }
uuid = { version = "1", features = ["v4"] }
