[package]
name = "easy_totp"
version = "0.1.0"
edition = "2021"
publish = false

[dependencies]
base64 = "=0.22.1"
image = { version = "=0.25.10", default-features = false, features = ["png"] }
rand = "=0.9.5"
serde = { version = "=1.0.229", features = ["derive"] }
totp-rs = { version = "=5.7.2", features = ["qr"] }

[dev-dependencies]
rqrr = "=0.11.0"
