[package]
name = "screencap"
version = "0.1.0"
edition = "2021"
publish = false

[dependencies]
base64 = "0.22"
image = { version = "0.24", default-features = false, features = ["png"] }
screenshots = "0.8"
serde = { version = "1", features = ["derive"] }
