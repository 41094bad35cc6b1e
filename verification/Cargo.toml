[package]
name = "lastfm"
version = "0.1.0"
edition = "2021"
publish = false

[dependencies]
serde_json = "=1.0.151"
url = "=2.5.8"
reqwest = { version = "=0.13.5", default-features = false, features = ["query"] }
futures = "=0.3.34"
chrono = "=0.4.45"
thiserror = "=2.0.21"
