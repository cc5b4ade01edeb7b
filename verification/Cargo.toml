[package]
name = "mousai"
version = "0.1.0"
edition = "2021"
publish = false

[dependencies]
anyhow = "=1.0.104"
base64 = "=0.21.7"
gettext-rs = { version = "=0.7.7", features = ["gettext-system"] }
indexmap = "=2.14.2"
once_cell = "=1.21.4"
rand = "=0.8.8"
reqwest = { version = "=0.11.27", default-features = false, features = ["blocking", "rustls-tls"] }
serde = { version = "=1.0.229", features = ["derive"] }
serde_json = "=1.0.154"
thiserror = "=1.0.69"
