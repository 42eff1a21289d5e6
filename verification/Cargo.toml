[package]
name = "stellar_client"
version = "0.1.0"
edition = "2021"
publish = false

[dependencies]
http = "*"
serde = { version = "*", features = ["derive"] }
serde_json = "*"
