[package]
name = "moq-relay-ietf"
version = "0.7.5"
edition = "2021"
publish = false

[dependencies]
url = "2"
anyhow = "1"
async-trait = "0.1"
log = "0.4"
env_logger = "0.11"
once_cell = "1"
thiserror = "1"
clap = { version = "4", features = ["derive"] }
tokio = { version = "1", features = ["full"] }
axum = "0.7"
tower-http = { version = "0.5", features = ["cors"] }
