[package]
name = "mailtrap"
version = "0.1.0"
edition = "2021"
publish = false

[dependencies]
mime = "0.3"
url = "2"
validator = "*"
serde = { version = "1", features = ["derive"] }
serde_json = "1"
reqwest = { version = "*", default-features = false }

[dev-dependencies]
fake = "*"
