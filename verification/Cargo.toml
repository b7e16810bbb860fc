[package]
name = "dib_client"
version = "0.1.0"
edition = "2021"
publish = false

[dependencies]
crossbeam-channel = "*"
image = "*"
log = "*"
rand = "*"
