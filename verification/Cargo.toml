[package]
name = "thermal_ticket"
version = "0.1.0"
edition = "2021"
publish = false

[dependencies]
chrono = "*"
qrcode = "*"
serde = { version = "*", features = ["derive"] }
serde_json = "*"
