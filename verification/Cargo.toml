[package]
name = "config_validate"
version = "0.1.0"
edition = "2021"
publish = false

[dependencies]
near-config-utils = "*"
tracing = "*"
