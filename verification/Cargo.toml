[package]
name = "ci-detective"
version = "0.1.0"
edition = "2021"
publish = false

[dependencies]
proc-macro2 = "=0.3.8"
quote = "=0.5.2"
syn = { version = "=0.13.11", features = ["extra-traits"] }
