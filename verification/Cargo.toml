[package]
name = "rustemon"
version = "0.1.0"
edition = "2021"
publish = false

[dependencies]
serde = { version = "=1.0.229", features = ["derive"] }
serde_json = "=1.0.151"
reqwest = "=0.12.28"
reqwest-middleware = "=0.4.2"
http-cache-reqwest = { version = "=0.16.0", features = ["manager-cacache", "manager-moka"] }
thiserror = "=2.0.21"
tokio = { version = "=1.53.2", features = ["rt", "macros"] }
