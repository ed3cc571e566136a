[package]
name = "aout2elf"
version = "0.1.0"
edition = "2021"
publish = false

[dependencies]
zerocopy = "0.8"
clap = { version = "4", features = ["derive"] }
env_logger = "0.11"
log = "0.4"
goblin = "*"
