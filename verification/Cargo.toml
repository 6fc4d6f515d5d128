[package]
name = "lwd_proxy"
version = "0.1.0"
edition = "2021"
publish = false

[dependencies]
anyhow = "*"
env_logger = "*"
figment = { version = "*", features = ["toml", "env"] }
prost = "0.13"
serde = { version = "*", features = ["derive"] }
thiserror = "*"
tokio = { version = "*", features = ["macros", "rt-multi-thread", "sync"] }
tokio-stream = "*"
tonic = { version = "0.12", features = ["tls", "tls-roots"] }
