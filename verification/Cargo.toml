[package]
name = "sysmetrics"
version = "0.1.0"
edition = "2021"
publish = false

[dependencies]
sysinfo = "0.28"
serde = { version = "1", features = ["derive"] }
