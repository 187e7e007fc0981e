[package]
name = "chain_pipeline"
version = "0.1.0"
edition = "2021"
publish = false

[dependencies]
serde_json = "=1.0.154"
serde = { version = "=1.0.229", features = ["derive"] }
toml = "=1.1.8"
clap = { version = "=4.6.7", features = ["derive"] }
owo-colors = "=4.4.0"
cw-swaggy = "=0.1.4"
tokio = { version = "=1.54.1", features = ["rt"] }
