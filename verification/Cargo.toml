[package]
name = "sleep_mode"
version = "0.1.0"
edition = "2021"
publish = false

[dependencies]
cortex-m = "*"
