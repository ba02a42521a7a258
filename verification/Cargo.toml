[package]
name = "rust_scraper"
version = "0.1.0"
edition = "2021"
publish = false

[dependencies]
scraper = "*"
url = "*"
tokio = { version = "*", features = ["rt-multi-thread", "sync", "time"] }
reqwest = { version = "*", default-features = false }
futures = "*"
http = "*"
bytes = "*"
quinn = "*"
h3 = "*"
h3-quinn = "*"
rustls-pki-types = "*"
