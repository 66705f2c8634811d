[package]
name = "bili_sync"
version = "0.1.0"
edition = "2021"
publish = false

[dependencies]
regex = "1"
chrono = "0.4"
html-escape = "0.2"
quick-xml = "*"
serde = { version = "1", features = ["derive"] }
serde_json = "1"
