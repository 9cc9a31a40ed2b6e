[package]
name = "scanii"
version = "1.3.0"
edition = "2021"
publish = false

[dependencies]
ureq = "2"
serde = { version = "1", features = ["derive"] }
serde_json = "1"
