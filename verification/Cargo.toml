[package]
name = "embassy_embedded_time"
version = "0.1.0"
edition = "2021"
publish = false

[dependencies]
embassy-time = { version = "*", features = ["std"] }
embedded-time = "*"
