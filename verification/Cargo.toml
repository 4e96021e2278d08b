[package]
name = "user_service"
version = "0.1.0"
edition = "2021"
publish = false

[dependencies]
bson = "2"
mongodb = "2"
axum = "0.7"
tokio = { version = "1", features = ["macros", "rt-multi-thread", "signal", "net"] }
serde = { version = "1", features = ["derive"] }
serde_json = "1"
futures-util = "0.3"
dotenvy = "0.15"
