[package]
name = "famo"
version = "0.1.0"
edition = "2021"
publish = false

[dependencies]
base64 = "0.13"
clap = "2"
env_logger = "*"
flate2 = "1"
log = "0.4"
num = "0.4"
reqwest = { version = "0.11", default-features = false, features = ["blocking", "gzip", "rustls-tls"] }
rust-crypto = "0.2"
sha2 = "0.8"
tar = "0.4"
time = "0.1"
