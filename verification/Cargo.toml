[package]
name = "libnss_shim"
version = "0.1.0"
edition = "2021"
publish = false

[dependencies]
lazy_static = "1"
libc = "0.2"
libnss = "*"
serde = "1"
serde_json = "1"
shlex = "1"
