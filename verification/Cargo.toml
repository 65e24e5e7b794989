[package]
name = "blog_backend"
version = "0.1.0"
edition = "2021"
publish = false

[dependencies]
anyhow = "1"
axum = "0.7"
base64 = "0.22"
chrono = "0.4"
dotenv = "0.15"
hex = "0.4"
jsonwebtoken = "9"
redis = { version = "0.27", features = ["tokio-comp"] }
rsa = "0.9"
serde = { version = "1", features = ["derive"] }
serde_json = { version = "1", features = ["raw_value"] }
sha2 = "0.10"
sqlx = { version = "0.8", default-features = false, features = ["runtime-tokio", "postgres", "chrono", "derive"] }
tokio = { version = "1", features = ["rt-multi-thread", "macros", "net"] }
tonic = "0.12"
tracing = "0.1"
tracing-subscriber = "0.3"
uuid = { version = "1", features = ["v4"] }
