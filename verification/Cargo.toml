[package]
name = "session_auth"
version = "0.1.0"
edition = "2021"
publish = false

[dependencies]
anyhow = "*"
axum = "*"
axum-login = "*"
serde = { version = "*", features = ["derive"] }
