[package]
name = "dq10tools"
version = "0.1.0"
edition = "2021"
publish = false

[dependencies]
chrono = "0.4"
chrono-tz = "0.10"
serde_json = "1"
clap = { version = "4", features = ["derive"] }
