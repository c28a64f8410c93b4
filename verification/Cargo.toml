[package]
name = "session_auth"
version = "0.1.0"
edition = "2021"
publish = false

[dependencies]
jsonwebtoken = "8"
pwhash = "1"
uuid = { version = "1", features = ["v4"] }
chrono = "0.4"
axum = { version = "0.6", features = ["headers"] }
tokio = { version = "1", features = ["rt-multi-thread", "macros"] }
serde = { version = "1", features = ["derive"] }
dotenv = "0.15"
