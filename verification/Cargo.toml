[package]
name = "code_runner"
version = "0.1.0"
edition = "2021"
publish = false

[dependencies]
dirs = "5"
env_logger = "0.11"
serde = { version = "1", features = ["derive"] }
thiserror = "1"
toml = "0.8"
wait-timeout = "0.2"

[dev-dependencies]
tempfile = "3"
