[package]
name = "ar_proxy"
version = "0.1.0"
edition = "2021"
publish = false

[dependencies]
base64 = "0.22"
chrono = "0.4"
dotenv = "0.15"
fern = "0.6"
log = "0.4"
reqwest = { version = "0.12", default-features = false, features = ["rustls-tls"] }
rocket = { version = "0.5", features = ["json"] }
serde_json = "1"
tempfile = "3"
tokio = { version = "1", features = ["sync"] }
