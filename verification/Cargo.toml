[package]
name = "quirc"
version = "0.1.0"
edition = "2021"
publish = false

[dev-dependencies]
image = { version = "0.25", default-features = false }
qrcode = { version = "0.14", default-features = false, features = ["image"] }
