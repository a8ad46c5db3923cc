[package]
name = "secure_chat"
version = "0.1.0"
edition = "2021"
publish = false

[dependencies]
p256 = { version = "0.13", features = ["ecdh"] }
hkdf = "0.12"
sha2 = "0.10"
aes-gcm = "0.10"
base64 = "0.22"
rand = "0.8"
tokio = { version = "1", features = ["full"] }
