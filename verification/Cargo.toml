[package]
name = "unicorn_hat_hd"
version = "0.1.0"
edition = "2021"
publish = false

[dependencies]
ansi_term = "0.12"
failure = "0.1"
rgb = "0.8"
rppal = "*"
