[package]
name = "playbot"
version = "0.1.0"
edition = "2021"
publish = false

[dependencies]
url = "2"
serde = { version = "1", features = ["derive"] }
serde_json = "1"
reqwest = { version = "0.10", features = ["blocking", "json"] }
serenity = "0.8"
lazy_static = "1"
