[package]
name = "visa_sdk"
version = "0.1.0"
edition = "2021"
publish = false

[dependencies]
reqwest = { version = "*", default-features = false, features = ["native-tls", "json"] }
serde = { version = "*", features = ["derive"] }
serde_json = "*"
url = "*"

[dev-dependencies]
openssl = "*"
