[package]
name = "pairing_core"
version = "0.1.0"
edition = "2021"
publish = false

[dependencies]
base64 = "*"
local-ip-address = "*"
qrcode = { version = "*", default-features = false }
serde_json = "*"
uuid = { version = "*", features = ["v4"] }
