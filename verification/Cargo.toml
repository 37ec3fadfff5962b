[package]
name = "thread_id"
version = "0.1.0"
edition = "2021"
publish = false

[dependencies]
libc = "=0.2.190"
kernel32-sys = "=0.2.2"
nix = { version = "=0.31.3", features = ["pthread"] }

[dev-dependencies]
crossbeam-utils = "*"
