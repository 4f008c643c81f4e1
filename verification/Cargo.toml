[package]
name = "rgb_minter"
version = "0.2.0"
edition = "2021"
publish = false

[dependencies]
clap = { version = "3", features = ["derive"] }
