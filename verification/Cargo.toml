[package]
name = "protocols"
version = "0.1.0"
edition = "2021"
publish = false

[dependencies]
base64 = "=0.21.7"
stringprep = "0.1"
hmac = "0.10"
digest = "0.9"
pbkdf2 = { version = "0.6", default-features = false }
rand = "0.7"

[dev-dependencies]
sha2 = "0.9"
