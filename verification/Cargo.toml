[package]
name = "gothite"
version = "0.1.0"
edition = "2021"
publish = false

[dependencies]
x11 = { version = "*", features = ["xlib"] }
cairo-sys-rs = "*"
log = "*"
env_logger = "*"
