[package]
name = "linux_tools"
version = "0.1.0"
edition = "2021"
publish = false

[dependencies]
chrono = "*"
regex = "*"
rust_cli = "*"
