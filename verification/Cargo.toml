[package]
name = "rivals_robot"
version = "0.1.0"
edition = "2021"
publish = false

[dependencies]
apriltag = "*"
image = { version = "0.25", default-features = false, features = ["png", "jpeg"] }
anyhow = "1"
crossterm = "0.28"
rppal = "*"
uom = "*"
serde = { version = "1", features = ["derive"] }
rmp-serde = "1"
serde_json = "1"
pyo3 = "0.23"
