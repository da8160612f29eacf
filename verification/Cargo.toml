[package]
name = "wavy"
version = "0.10.0"
edition = "2021"
publish = false

[dependencies]
fon = "=0.5.0"
pasts = "=0.14.3"
dl_api = "=0.4.0"
smelling_salts = "=0.12.1"
libc = "=0.2.191"
flume = "=0.12.0"
lookit = "=0.3.2"
