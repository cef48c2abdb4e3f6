[package]
name = "theatrical_players"
version = "0.1.0"
edition = "2021"
publish = false

[dependencies]
currency_rs = "*"
serde = { version = "1", features = ["derive"] }
serde_json = "1"
