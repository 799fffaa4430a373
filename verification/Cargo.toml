[package]
name = "consensus"
version = "0.1.0"
edition = "2021"
publish = false

[dependencies]
blake2b_simd = "0.5"
crossbeam-channel = "*"
clap = "2"
log = "*"
env_logger = "*"
serde = "*"
serde_derive = "*"
toml = "*"
