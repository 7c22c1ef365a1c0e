[package]
name = "cross_socket"
version = "0.1.0"
edition = "2021"
publish = false

[dependencies]
pnet = "*"
rand = "=0.8.8"
socket2 = { version = "=0.5.10", features = ["all"] }
