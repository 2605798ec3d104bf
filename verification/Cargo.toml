[package]
name = "oxana-mcp"
version = "0.1.0"
edition = "2021"
publish = false

[dependencies]
axum = "0.8"
chrono = "0.4"
rmcp = { version = "*", features = ["server", "macros", "schemars", "transport-streamable-http-server"] }
serde = { version = "1", features = ["derive"] }
serde_json = "1"
subtle = "2"
tokio = { version = "1", features = ["net", "signal"] }
