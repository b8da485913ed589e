[package]
name = "pubg"
version = "0.1.0"
edition = "2021"
publish = false

[dependencies]
anyhow = "*"
env_logger = "*"
log = "*"
obfstr = "*"
once_cell = "*"
raw_struct = "*"
