[package]
name = "notifyme"
version = "0.1.0"
edition = "2021"
publish = false

[dependencies]
rmcp = { version = "*", features = ["server", "transport-sse-server", "macros"] }
axum = "*"
tokio = { version = "*", features = ["full"] }
tokio-util = "*"
tower-http = { version = "*", features = ["cors"] }
serde = { version = "*", features = ["derive"] }
serde_json = "*"
schemars = "*"
