[package]
name = "boxrun"
version = "0.1.0"
edition = "2021"
publish = false

[dependencies]
flate2 = "=1.1.10"
tar = "=0.4.46"
tempfile = "=3.27.0"
libc = "=0.2.190"
serde = { version = "=1.0.229", features = ["derive"] }
anyhow = "=1.0.104"
reqwest = { version = "=0.12.28", default-features = false, features = ["blocking", "json", "rustls-tls"] }
