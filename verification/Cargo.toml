[package]
name = "auction"
version = "0.1.0"
edition = "2021"
publish = false

[dependencies]
env_logger = "*"
rand = "*"
serde = { version = "*", features = ["derive"] }
uuid = { version = "*", features = ["v4", "serde"] }
