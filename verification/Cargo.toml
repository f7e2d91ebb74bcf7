[package]
name = "rconcmd"
version = "0.2.0"
edition = "2021"
publish = false

[dependencies]
byteorder = "1"
bytes = "0.4"
clap = "2"
env_logger = "0.7"
futures = "0.1"
lazy_static = "1"
log = "0.4"
tokio = "0.1"
tokio-dns-unofficial = "*"
tokio-io = "0.1"
tokio-timer = "0.2"
