[package]
name = "rusty_bot"
version = "0.1.0"
edition = "2021"
publish = false

[dependencies]
comrak = "*"
serde = { version = "*", features = ["derive"] }
