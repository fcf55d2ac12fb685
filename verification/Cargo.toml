[package]
name = "config_dirs"
version = "0.1.0"
edition = "2021"
publish = false

[dependencies]
convert_case = "*"
dirs = "*"
thiserror = "*"
tracing = "*"
