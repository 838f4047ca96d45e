[package]
name = "toa_ping"
version = "0.1.0"
edition = "2021"
publish = false

[dependencies]
socket2 = "*"
libc = "*"
