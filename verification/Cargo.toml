[package]
name = "relay_server"
version = "0.1.0"
edition = "2021"
publish = false

[dependencies]
regex = "*"
axum = "*"
tokio = { version = "*", features = ["full"] }
reqwest = { version = "*", default-features = false, features = ["rustls-tls", "stream"] }
hickory-resolver = "*"
futures-util = "*"
tower-http = { version = "*", features = ["trace"] }
tracing = "*"
tracing-subscriber = { version = "*", features = ["env-filter"] }
dotenvy = "*"
prometheus = "*"
