[package]
name = "alloy-fireblocks"
version = "0.1.0"
edition = "2021"
publish = false

[dependencies]
jsonwebtoken = "=9.3.1"
sha2 = "=0.10.9"
hex = "=0.4.3"
uuid = { version = "=1.27.0", features = ["v4"] }
chrono = "=0.4.45"
rand = "=0.8.8"
reqwest = { version = "0.12", default-features = false }
serde = { version = "1", features = ["derive"] }
serde_json = "1"
thiserror = "2"
alloy-core = "*"

[dev-dependencies]
rsa = "0.9"
