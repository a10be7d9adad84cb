[package]
name = "alpha_vantage"
version = "0.1.0"
edition = "2021"
publish = false

[dependencies]
chrono = { version = "=0.4.45", default-features = false, features = ["std"] }
reqwest = { version = "=0.12.28", default-features = false, features = ["rustls-tls"] }
serde_json = { version = "=1.0.154", features = ["raw_value"] }
serde_with = { version = "3", default-features = false, features = ["std"] }
