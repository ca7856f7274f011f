[package]
name = "rooch_types"
version = "0.1.0"
edition = "2021"
publish = false

[dependencies]
anyhow = "=1.0.104"
move-core-types = "=0.0.3"
