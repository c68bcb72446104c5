[package]
name = "crypto_agility"
version = "0.1.0"
edition = "2021"
publish = false

[dependencies]
brotli = "=9.0.0"
libcrux-sha2 = "=0.0.9"
rustls-pki-types = "=1.15.1"
zlib-rs = "=0.6.8"
