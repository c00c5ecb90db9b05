[package]
name = "nix_home_fs"
version = "0.1.0"
edition = "2021"
publish = false

[dependencies]
nix = { version = "=0.31.3", features = ["user"] }
anyhow = "*"
clap = { version = "*", features = ["derive"] }
daemonize = "*"
env_logger = "*"
fuser = { version = "=0.14.0", default-features = false }
libc = "*"
