[package]
name = "impit"
version = "0.1.0"
edition = "2021"
publish = false

[dependencies]
url = "2"
num-bigint = "0.4"
encoding = "0.2"
scraper = "*"
rustls = { version = "0.23", default-features = false, features = ["std"] }
reqwest = { version = "0.12", default-features = false, features = ["rustls-tls"] }
tokio = { version = "1", features = ["rt", "macros"] }
hickory-client = "0.24"
hickory-proto = "0.24"
