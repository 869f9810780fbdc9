[package]
name = "verba"
version = "0.1.0"
edition = "2021"
publish = false

[dependencies]
async-trait = "0.1"
futures = "0.3"
objc2 = "*"
objc2-app-kit = "*"
objc2-foundation = "*"
reqwest = { version = "0.12", default-features = false, features = ["rustls-tls"] }
security-framework = "*"
security-framework-sys = "*"
serde = { version = "1", features = ["derive"] }
serde_json = "1"
tokio = { version = "1", features = ["rt-multi-thread"] }
uniffi = "*"
url = "2"
