[package]
name = "demeter"
version = "0.1.0"
edition = "2021"
publish = false

[dependencies]
axum = "0.8"
bcrypt = "0.15"
chrono = { version = "0.4", features = ["serde"] }
config = { version = "0.14", default-features = false }
cookie = "0.18"
dotenvy = "0.15"
jsonwebtoken = "9"
serde = { version = "1", features = ["derive"] }
serde_json = "1"
sqlx = { version = "0.8", default-features = false, features = ["postgres", "runtime-tokio", "macros", "migrate", "chrono", "json"] }
tokio = { version = "1", features = ["rt-multi-thread", "macros", "net"] }
tower-http = { version = "0.6", features = ["cors", "trace", "timeout"] }
tracing = "0.1"
tracing-appender = "0.2"
tracing-subscriber = { version = "0.3", features = ["env-filter"] }
uuid = { version = "1", features = ["v4"] }
