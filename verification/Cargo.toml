[package]
name = "cinema-booking"
version = "0.1.0"
edition = "2021"
publish = false

[dependencies]
uuid = { version = "=1.29.0", features = ["v4"] }
redis = { version = "=0.27.6", features = ["tokio-comp", "script", "aio"] }
axum = "=0.8.9"
tokio = { version = "=1.54.1", features = ["full"] }
serde = { version = "=1.0.229", features = ["derive"] }
serde_json = "=1.0.154"
chrono = { version = "=0.4.45", features = ["serde"] }
async-trait = "=0.1.92"
async-stream = "=0.3.6"
datastar = { version = "=0.3.1", features = ["axum"] }
cookie = "=0.18.2"
jsonwebtoken = "=9.3.1"
reqwest = { version = "=0.12.28", default-features = false, features = ["json", "rustls-tls"] }
trailbase-client = "=0.10.1"
tower-http = { version = "=0.6.11", features = ["fs"] }
tracing = "=0.1.44"
anyhow = "=1.0.104"
thiserror = "=2.0.21"
sqlx = { version = "=0.8.6", default-features = false, features = ["sqlite", "runtime-tokio", "derive"] }
validator = "0.20"
