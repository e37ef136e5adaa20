[package]
name = "jwt_verifier"
version = "0.1.0"
edition = "2021"
publish = false

[dependencies]
serde_json = "*"
hmac = "*"
sha2 = "*"
subtle = "*"

[dev-dependencies]
base64 = "*"
