[package]
name = "axum-convenience"
version = "0.1.0"
edition = "2021"
publish = false

[dependencies]
axum = "=0.4.8"
axum-server = { version = "=0.3.3", features = ["tls-rustls"] }
futures-util = "=0.3.34"
hyper = { version = "=0.14.32", features = ["full"] }
thiserror = "=1.0.69"
tokio = { version = "=1.54.1", features = ["full"] }
tracing = "=0.1.44"

[dev-dependencies]
rustls = "=0.20.9"
