[package]
name = "mosaicod"
version = "0.1.0"
edition = "2021"
publish = false

[dependencies]
arrow-flight = "*"
tonic = "*"
tokio = { version = "*", features = ["full"] }
futures = "*"
log = "*"
serde = { version = "*", features = ["derive"] }
serde_json = "*"
