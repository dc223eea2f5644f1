[package]
name = "chat_relay"
version = "0.1.0"
edition = "2021"
publish = false

[dependencies]
serde_json = "=1.0.151"
jsonwebtoken = { version = "=11.1.0", features = ["rust_crypto"] }
argon2 = "=0.6.0"
serde = { version = "*", features = ["derive"] }
axum = { version = "*", features = ["ws"] }
axum-extra = { version = "*", features = ["typed-header"] }
tokio = { version = "*", features = ["rt-multi-thread", "macros", "net", "sync", "time"] }
sqlx = { version = "*", default-features = false, features = ["runtime-tokio", "postgres"] }
futures = "*"
dotenvy = "*"
tower-http = { version = "*", features = ["fs"] }
