[package]
name = "xorcrypt"
version = "0.1.0"
edition = "2021"
publish = false

[dependencies]
base64 = "*"
rand = "*"
zstd = "*"
clap = { version = "*", features = ["derive"] }
indicatif = "*"
