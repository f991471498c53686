[package]
name = "keyword_crawler"
version = "0.1.0"
edition = "2021"
publish = false

[dependencies]
regex = "=1.13.1"
url = "=2.5.8"
chrono = "=0.4.45"
serde = { version = "=1.0.229", features = ["derive"] }
serde_json = "=1.0.154"
thiserror = "=1.0.69"
tokio = { version = "=1.54.1", features = ["full"] }
axum = "=0.8.9"
tower-http = { version = "=0.6.11", features = ["cors"] }
dotenv = "=0.15.0"
spider = { version = "=2.53.9", default-features = false }
sqlx = { version = "0.8", default-features = false, features = ["postgres", "runtime-tokio"] }
