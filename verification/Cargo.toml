[package]
name = "rstb_runner"
version = "0.1.0"
edition = "2021"
publish = false

[dependencies]
clap = "*"
serde = "*"
serde_derive = "*"
toml = "*"
