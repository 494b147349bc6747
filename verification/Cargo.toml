[package]
name = "persway"
version = "0.1.0"
edition = "2021"
publish = false

[dependencies]
anyhow = "*"
async-std = { version = "*", features = ["attributes"] }
signal-hook = "*"
signal-hook-async-std = "*"
structopt = "*"
swayipc-async = "*"
