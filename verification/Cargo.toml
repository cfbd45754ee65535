[package]
name = "just_links"
version = "0.1.0"
edition = "2021"
publish = false

[dependencies]
axum = { version = "=0.6.20", features = ["headers"] }
base64 = "=0.21.7"
base64ct = { version = "=1.8.3", features = ["alloc"] }
biscuit = "=0.6.0"
dotenvy = "=0.15.7"
hyper = { version = "=0.14.32", features = ["client", "http1", "tcp"] }
rand = "=0.8.8"
serde = { version = "=1.0.229", features = ["derive"] }
serde_json = "=1.0.151"
sha3 = "=0.10.9"
tokio = { version = "=1.53.2", features = ["full"] }
tower-http = { version = "=0.4.4", features = ["cors", "trace"] }
tracing = "=0.1.44"
tracing-subscriber = { version = "=0.3.23", features = ["env-filter"] }
