[package]
name = "paystack_rs"
version = "0.1.0"
edition = "2021"
publish = false

[dependencies]
reqwest = { version = "=0.11.27", default-features = false, features = ["blocking"] }

[dev-dependencies]
chrono = "=0.4.45"
serde_json = "=1.0.151"
serde_urlencoded = "=0.7.1"
