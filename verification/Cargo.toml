[package]
name = "leaderboard"
version = "0.1.0"
edition = "2021"
publish = false

[dependencies]
chrono = "*"
chrono-tz = "*"
clap = { version = "*", features = ["derive"] }
encoding_rs = "*"
rand = "*"
serde = { version = "*", features = ["derive"] }
serde_json = "*"
