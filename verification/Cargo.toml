[package]
name = "post_push_party"
version = "0.1.0"
edition = "2021"
publish = false

[dependencies]
anyhow = "1"
bincode = "1"
chrono = "0.4"
clap = { version = "4", features = ["derive"] }
crossterm = "*"
noise = "*"
rand = "*"
serde = { version = "1", features = ["derive"] }
serde_json = "1"
tixel = "*"
