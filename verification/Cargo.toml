[package]
name = "rust_xs_test"
version = "0.1.0"
edition = "2021"
publish = false

[dependencies]
chrono = "0.4"
rand = "0.8"
toml = "0.5"
serde = "1"
serde_derive = "1"
log = "0.4"
simple_logger = "*"
threadpool = "1"
psutil = "3"
walkdir = "2"
