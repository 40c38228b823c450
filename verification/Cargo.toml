[package]
name = "burst_counter"
version = "0.1.0"
edition = "2021"
publish = false

[dependencies]
anyhow = "*"
cpal = "*"
gag = "*"
inquire = "*"
