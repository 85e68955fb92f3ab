[package]
name = "yubihsm"
version = "0.1.0"
edition = "2021"
publish = false

[dependencies]
aes = "0.8"
byteorder = "1"
cbc = "0.1"
ccm = "0.5"
cmac = "0.7"
hmac = "0.7"
pbkdf2 = { version = "0.3", default-features = false }
rand_os = "0.1"
ring = "0.17"
sha2 = "0.8"
subtle = "2"
uuid = { version = "0.7", features = ["v4"] }
