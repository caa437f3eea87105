[package]
name = "launch_config"
version = "0.1.0"
edition = "2021"
publish = false

[dependencies]
wildmatch = "2"
serde = { version = "1", features = ["derive"] }
