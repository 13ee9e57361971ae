[package]
name = "auth_service"
version = "0.1.0"
edition = "2021"
publish = false

[dependencies]
argon2 = "*"
axum = "*"
axum-extra = { version = "*", features = ["cookie"] }
dotenvy = "*"
rand = "*"
redis = "*"
serde = { version = "*", features = ["derive"] }
tokio = { version = "*", features = ["rt-multi-thread", "macros", "net", "sync"] }
uuid = { version = "*", features = ["v4"] }
validator = "*"
