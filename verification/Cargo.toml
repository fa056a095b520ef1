[package]
name = "qbit_api"
version = "0.1.0"
edition = "2021"
publish = false

[dependencies]
http-client = { version = "6", default-features = false }
serde = { version = "1", features = ["derive"] }
thiserror = "1"
