[package]
name = "hkuauth"
version = "0.1.0"
edition = "2021"
publish = false

[dependencies]
asession = "*"
chrono = "*"
