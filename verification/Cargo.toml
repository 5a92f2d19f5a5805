[package]
name = "mde-kdc-host"
version = "0.1.0"
edition = "2021"
publish = false

[dependencies]
async-trait = "=0.1.92"
rand = "=0.8.8"
rsa = "=0.9.10"
serde = { version = "=1.0.229", features = ["derive"] }
tokio = { version = "=1.54.1", features = ["io-util", "rt", "sync"] }
toml = "=0.8.23"

[dev-dependencies]
rsa = { version = "=0.9.10", features = ["sha2"] }
