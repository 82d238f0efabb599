[package]
name = "goes_arch"
version = "0.1.0"
edition = "2021"
publish = false

[dependencies]
chrono = "=0.4.45"
crossbeam-channel = "=0.5.17"
log = "=0.4.34"
rust-s3 = { version = "=0.38.0", default-features = false, features = ["sync-rustls-tls"] }
threadpool = "=1.8.1"
