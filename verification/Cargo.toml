[package]
name = "birthday_service"
version = "0.1.0"
edition = "2021"
publish = false

[dependencies]
anyhow = "1"
axum = "0.7"
chrono = "0.4"
clap = { version = "4", features = ["derive", "env"] }
lazy_static = "1"
log = "0.4"
log4rs = "1"
log-mdc = "0.1"
prometheus = "0.13"
rand = "0.8"
serde = { version = "1", features = ["derive"] }
serde_json = "1"
tokio = { version = "1", features = ["full"] }
tower = "0.4"
tower-http = { version = "0.5", features = ["request-id", "timeout", "trace", "util"] }
