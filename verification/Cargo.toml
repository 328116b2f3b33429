[package]
name = "watson"
version = "0.1.0"
edition = "2021"
publish = false

[dependencies]
chrono = "*"
uuid = { version = "*", features = ["v4"] }
serde = { version = "*", features = ["derive"] }
serde_json = "*"
hound = "*"
dirs = "*"
cpal = "*"
zip = "*"
