[package]
name = "playit"
version = "0.1.0"
edition = "2021"
publish = false

[dependencies]
serde_json = "1"
dirs = "*"
rand = "*"
clap = { version = "4", features = ["derive"] }
