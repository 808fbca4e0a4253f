[package]
name = "upki-openssl"
version = "0.1.0"
edition = "2021"
publish = false

[dependencies]
openssl-sys = "0.9"
rustls-pki-types = "1"
tracing = "0.1"
tracing-subscriber = { version = "0.3", features = ["env-filter"] }
x509-parser = "*"
