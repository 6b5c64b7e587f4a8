[package]
name = "rust_axum_todo"
version = "0.1.0"
edition = "2021"
publish = false

[dependencies]
argon2 = "=0.5.3"
rand = "=0.8.8"
uuid = { version = "=1.29.0", features = ["v4"] }
chrono = { version = "=0.4.45", features = ["serde"] }
jsonwebtoken = { version = "=10.4.0", default-features = false, features = ["rust_crypto"] }
serde = { version = "=1.0.229", features = ["derive"] }
serde_json = { version = "=1.0.154", features = ["preserve_order"] }
axum = "=0.8.9"
tokio = { version = "=1.54.1", features = ["full"] }
sqlx = { version = "=0.8.6", default-features = false, features = ["runtime-tokio", "sqlite", "chrono", "macros", "derive", "migrate"] }
redis = { version = "=0.27.6", features = ["tokio-comp"] }
tower-http = { version = "=0.6.11", features = ["cors", "trace"] }
tracing-subscriber = "=0.3.23"
dotenvy = "=0.15.7"
