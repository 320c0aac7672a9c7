[package]
name = "candev"
version = "0.1.0"
edition = "2021"
publish = false

[dependencies]
embedded-can = "0.4"
libc = "0.2"
nb = "1"
