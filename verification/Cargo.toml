[package]
name = "pty_spawn"
version = "0.1.0"
edition = "2021"
publish = false

[dependencies]
async-process = "=1.8.1"
libc = "=0.2.191"

[dev-dependencies]
futures-lite = "1.13"
