[package]
name = "newsletter_ingest"
version = "0.1.0"
edition = "2021"
publish = false

[dependencies]
html2md = "0.2"
quick-xml = "0.31"
reqwest = "0.12"
serde = { version = "1", features = ["derive"] }
serde_json = "1"
