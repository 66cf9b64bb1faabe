[package]
name = "ezcmd"
version = "0.1.0"
edition = "2021"
publish = false

[dependencies]
log = "0.4"
shell-words = "1"
thiserror = "1"
