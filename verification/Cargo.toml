[package]
name = "unvoid"
version = "0.1.0"
edition = "2021"
publish = false

[dependencies]
serde_json = "*"
serde_yaml = "*"
toml = "*"
semver = "*"
url = "*"
clap = { version = "*", features = ["derive"] }
tokio = { version = "*", features = ["rt-multi-thread"] }
tracing = "*"
tracing-subscriber = "*"
color-eyre = "*"
