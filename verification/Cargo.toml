[package]
name = "client"
version = "0.1.0"
edition = "2021"
publish = false

[dependencies]
url = "=2.1.1"
log = "0.4"
env_logger = "*"
