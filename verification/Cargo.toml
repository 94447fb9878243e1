[package]
name = "rpmpack"
version = "0.1.0"
edition = "2021"
publish = false

[dependencies]
clap = { version = "*", features = ["derive"] }
regex = "*"
rpm = { version = "*", features = ["signature-pgp"] }
serde = { version = "*", features = ["derive"] }
serde_json = "*"
