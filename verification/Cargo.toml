[package]
name = "shmtest"
version = "0.1.0"
edition = "2021"
publish = false

[dependencies]
nix = { version = "=0.31.3", features = ["fs", "mman"] }
libc = "=0.2.190"
linux-futex = "=1.0.0"
log = "=0.4.34"
env_logger = "=0.11.11"
clap = { version = "=4.6.7", features = ["derive"] }
