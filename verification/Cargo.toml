[package]
name = "consensus_rs"
version = "0.1.0"
edition = "2021"
publish = false

[dependencies]
futures-lite = "*"
log = "*"
pin-project-lite = "*"
