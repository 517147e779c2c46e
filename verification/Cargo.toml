[package]
name = "alpaca_extfs"
version = "0.2.0"
edition = "2021"
publish = false

[dependencies]
clap = { version = "=4.6.7", features = ["derive"] }
fuser = { version = "=0.15.1", default-features = false }
libc = "=0.2.191"
