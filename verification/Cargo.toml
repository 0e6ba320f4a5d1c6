[package]
name = "baler"
version = "0.1.0"
edition = "2021"
publish = false

[dependencies]
anyhow = "=1.0.104"
clap = "=4.6.7"
flate2 = "=1.1.10"
reqwest = { version = "=0.12.28", default-features = false, features = ["blocking", "rustls-tls"] }
schemars = "=0.8.22"
serde = { version = "=1.0.229", features = ["derive"] }
serde_json = "=1.0.154"
tar = "=0.4.46"
tempfile = "=3.27.0"
toml = "=0.8.23"
walkdir = "=2.5.0"
