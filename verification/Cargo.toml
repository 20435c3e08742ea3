[package]
name = "ora"
version = "0.1.0"
edition = "2021"
publish = false

[dependencies]
chrono = "0.4"
chrono-tz = "*"
time = "0.3"
serde = { version = "1", features = ["derive"] }
ts-rs = "*"
