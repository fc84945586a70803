[package]
name = "foxess"
version = "2.0.0"
edition = "2021"
publish = false

[dependencies]
chrono = "0.4"
md-5 = "0.10"
reqwest = { version = "0.12", default-features = false, features = ["rustls-tls"] }
serde = { version = "1", features = ["derive"] }
serde_json = "1"
thiserror = "2"
