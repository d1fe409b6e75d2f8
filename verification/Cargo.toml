[package]
name = "portal_auth"
version = "0.1.0"
edition = "2021"
publish = false

[dependencies]
reqwest = { version = "0.12", features = ["cookies", "json"] }
scraper = "0.22"
serde = { version = "1", features = ["derive"] }
serde_json = "1"
url = "2"
