[package]
name = "joblode"
version = "0.1.0"
edition = "2021"
publish = false

[dependencies]
anyhow = "1"
chrono = "=0.4.45"
duckdb = "=1.20000.1"
reqwest = { version = "0.12", default-features = false, features = ["json", "rustls-tls"] }
schemars = "*"
serde = { version = "1", features = ["derive"] }
serde_json = "1"
sha2 = "=0.10.9"
tokio = { version = "1", features = ["rt", "rt-multi-thread", "macros"] }
tracing = "0.1"
url = "=2.5.8"
