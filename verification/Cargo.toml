[package]
name = "plexmcp_billing"
version = "0.1.0"
edition = "2021"
publish = false

[dependencies]
async-stripe = { version = "=0.39.1", default-features = false, features = ["runtime-tokio-hyper-rustls-webpki", "billing", "checkout", "products"] }
chrono = "=0.4.45"
hex = "=0.4.3"
hmac = "=0.12.1"
serde = { version = "=1.0.229", features = ["derive"] }
serde_json = "=1.0.154"
sha2 = "=0.10.9"
sqlx = { version = "=0.8.6", features = ["postgres", "runtime-tokio", "time", "uuid"] }
time = "=0.3.55"
uuid = { version = "=1.29.0", features = ["v4", "serde"] }
