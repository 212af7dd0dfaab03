[package]
name = "messenger_crypto"
version = "0.1.0"
edition = "2021"
publish = false

[dependencies]
rsa = "0.9"
aes-gcm = "0.10"
base64 = "0.22"
rand = "0.8"
rand_core = "0.6"
sha2 = "0.10"

[dev-dependencies]
serde_json = "1"
