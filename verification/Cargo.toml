[package]
name = "beefy_translator"
version = "0.1.0"
edition = "2021"
publish = false

[dev-dependencies]
ckb-merkle-mountain-range = "=0.5.2"
