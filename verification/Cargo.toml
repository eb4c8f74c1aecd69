[package]
name = "saxo_receiver"
version = "0.1.0"
edition = "2021"
publish = false

[dependencies]
async-stream = "*"
axum = "*"
futures-util = "*"
serde = { version = "*", features = ["derive"] }
serde_json = "*"
sqlx = { version = "*", default-features = false, features = ["runtime-tokio", "sqlite"] }
tokio = { version = "*", features = ["full"] }
tokio-util = { version = "*", features = ["codec", "io"] }
tower-http = { version = "*", features = ["cors"] }
