[package]
name = "cantact"
version = "0.1.0"
edition = "2021"
publish = false

[dependencies]
rusb = "*"
crossbeam-channel = "*"
serde = { version = "1", features = ["derive"] }
