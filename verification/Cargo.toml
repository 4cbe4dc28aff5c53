[package]
name = "app_manager"
version = "0.1.0"
edition = "2021"
publish = false

[dependencies]
time = "0.3"
rustls-pemfile = "1"
tokio = { version = "1", features = ["full"] }
axum = "0.7"
hyper = { version = "1", features = ["full"] }
hyper-util = { version = "0.1", features = ["full"] }
tokio-rustls = "0.24"
tower = "0.4"
tower-http = { version = "0.5", features = ["trace"] }
tracing = "0.1"
tracing-subscriber = "0.3"
reqwest = { version = "0.11", default-features = false, features = ["rustls-tls", "json"] }
serde = { version = "1", features = ["derive"] }
serde_json = "1"
toml = "0.8"
url = { version = "2", features = ["serde"] }
clap = { version = "4", features = ["derive"] }
thiserror = "1"
error-stack = "0.4"
futures = "0.3"
