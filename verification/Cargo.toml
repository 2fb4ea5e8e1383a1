[package]
name = "ds4cc"
version = "0.1.0"
edition = "2021"
publish = false

[dependencies]
serde_json = "*"
serde = { version = "*", features = ["derive"] }
toml = "*"
log = "*"
env_logger = "*"
base64 = "*"
ureq = "*"
hidapi = "*"
tokio = { version = "*", features = ["rt-multi-thread", "macros", "sync", "time"] }
