[package]
name = "espera"
version = "0.1.0"
edition = "2021"
publish = false

[dependencies]
ahash = "0.8"
arraydeque = "0.4"
log = "0.4"
sixbit = "*"
spin_sleep = "1"
time = { version = "0.3", features = ["std"] }
