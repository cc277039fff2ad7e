[package]
name = "meli_backend"
version = "0.1.0"
edition = "2021"
publish = false

[dependencies]
uuid = { version = "=1.29.0", features = ["v4", "serde"] }
chrono = { version = "=0.4.45", features = ["serde"] }
dashmap = "=5.5.3"
email_address = "=0.2.9"
regex = "=1.13.1"
rust-argon2 = "=1.0.1"
serde = { version = "=1.0.229", features = ["derive"] }
serde_json = "=1.0.154"
bigdecimal = { version = "=0.4.11", features = ["serde"] }
cookie = { version = "=0.17.0", features = ["private", "percent-encode"] }
axum = "=0.6.20"
axum-core = "=0.3.4"
tokio = { version = "=1.54.1", features = ["full"] }
tower-http = { version = "=0.4.4", features = ["cors", "trace"] }
tower-layer = "=0.3.3"
tower-service = "=0.3.3"
http = "=0.2.12"
http-body = "=0.4.6"
futures = "=0.3.34"
bytes = "=1.12.1"
async-trait = "=0.1.92"
anyhow = "=1.0.104"
tracing = "=0.1.44"
tracing-subscriber = { version = "=0.3.23", features = ["env-filter"] }
dotenvy = "=0.15.7"
random_color = "=0.6.1"
diesel = { version = "=2.3.14", features = ["postgres", "r2d2", "chrono", "uuid", "numeric"] }
