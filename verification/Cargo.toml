[package]
name = "prostor"
version = "0.1.0"
edition = "2021"
publish = false

[dependencies]
jsonwebtoken = "=9.3.1"
serde_json = "=1.0.151"
serde = { version = "1", features = ["derive"] }
axum = { version = "0.8", features = ["multipart"] }
tokio = { version = "1", features = ["rt-multi-thread", "macros", "net", "signal", "sync", "time"] }
reqwest = { version = "0.12", default-features = false }
sqlx = { version = "0.8", default-features = false, features = ["runtime-tokio", "postgres", "json"] }
config = "0.15"
csv = "1"
tempfile = "3"
uuid = { version = "1", features = ["v7"] }
