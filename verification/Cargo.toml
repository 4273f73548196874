[package]
name = "caimanager"
version = "0.1.0"
edition = "2021"
publish = false

[dependencies]
axum = { version = "=0.7.9", features = ["ws"] }
axum-server = { version = "=0.7.3", default-features = false, features = ["tls-rustls-no-provider"] }
env_logger = "=0.11.11"
log = "=0.4.35"
once_cell = "=1.21.4"
rustls = { version = "0.23", default-features = false, features = ["ring", "std", "tls12"] }
serde = { version = "=1.0.229", features = ["derive"] }
serde_json = "=1.0.154"
sysinfo = "=0.31.4"
tokio = { version = "=1.54.1", features = ["full"] }
tower-http = { version = "=0.5.2", features = ["cors"] }
