[package]
name = "wtm"
version = "0.1.0"
edition = "2021"
publish = false

[dependencies]
anyhow = "1"
ratatui = "0.29"
syntect = { version = "5", default-features = false, features = ["default-fancy"] }
