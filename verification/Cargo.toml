[package]
name = "zerolimit"
version = "0.1.0"
edition = "2021"
publish = false

[dependencies]
dirs = "5"
flate2 = "1"
opener = "0.7"
reqwest = { version = "0.12", default-features = false, features = ["json", "rustls-tls"] }
serde = { version = "1", features = ["derive"] }
serde_json = "1"
tar = "0.4"
thiserror = "1"
zip = { version = "2", default-features = false, features = ["deflate"] }
