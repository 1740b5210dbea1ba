[package]
name = "newsletter"
version = "0.1.0"
edition = "2021"
publish = false

[dependencies]
actix-web = { version = "4", default-features = false }
reqwest = { version = "0.11", default-features = false }
secrecy = "0.8"
serde = { version = "1", features = ["derive"] }
serde_json = "1"
