[package]
name = "meta_matrix"
version = "0.1.0"
edition = "2021"
publish = false

[dependencies]
anyhow = "=1.0.104"
rand = "=0.10.3"
reqwest = { version = "=0.13.5", default-features = false, features = ["blocking", "query"] }
scraper = "=0.27.0"
serde = { version = "=1.0.229", features = ["derive"] }
toml = "=1.1.7"
url = "=2.5.8"
