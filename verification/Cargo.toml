[package]
name = "dik_dik"
version = "0.1.0"
edition = "2021"
publish = false

[dependencies]
urlencoding = "=2.1.3"
ethers = "=2.0.14"
tokio = { version = "=1.53.2", features = ["rt-multi-thread"] }
reqwest = { version = "=0.11.27", default-features = false, features = ["rustls-tls"] }
serde_json = "=1.0.151"
rustc-hex = "=2.1.0"
thiserror = "=1.0.69"
url = "=2.5.8"
