[package]
name = "ddapi_rs"
version = "0.1.0"
edition = "2021"
publish = false

[dependencies]
serde_json = "*"
urlencoding = "*"
chrono = "*"
moka = { version = "*", features = ["sync"] }
reqwest = { version = "*", default-features = false }
serde = { version = "*", features = ["derive"] }
