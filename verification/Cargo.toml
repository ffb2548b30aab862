[package]
name = "hpcd"
version = "0.1.0"
edition = "2021"
publish = false

[dependencies]
anyhow = "*"
clap = { version = "*", features = ["derive"] }
dirs = "*"
env_logger = "*"
log = "*"
prost = "*"
russh = "*"
serde = { version = "*", features = ["derive"] }
shellexpand = "*"
thiserror = "*"
tokio = { version = "*", features = ["full"] }
tokio-stream = "*"
toml = "*"
tonic = "*"
tonic-prost = "*"
tonic-types = "*"
