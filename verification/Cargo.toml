[package]
name = "ole"
version = "0.1.0"
edition = "2021"
publish = false

[dependencies]
anyhow = "1"
cpal = "0.15"
crossbeam-channel = "0.5"
hound = "3"
rustfft = "6"
tracing = "0.1"
tracing-subscriber = { version = "0.3", features = ["env-filter"] }
