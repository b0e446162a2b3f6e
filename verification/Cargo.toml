[package]
name = "brigade_sdk"
version = "0.1.0"
edition = "2021"
publish = false

[dependencies]
reqwest = { version = "*", default-features = false, features = ["rustls-tls"] }

[dev-dependencies]
serde_json = "*"
