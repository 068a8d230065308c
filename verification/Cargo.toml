[package]
name = "local_stargate"
version = "0.1.0"
edition = "2021"
publish = false

[dependencies]
dirs = "*"
axum = "*"
reqwest = { version = "*", default-features = false }
tokio = { version = "*", features = ["full"] }
tower-http = { version = "*", features = ["cors"] }
