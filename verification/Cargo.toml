[package]
name = "linux_max6675"
version = "0.1.0"
edition = "2021"
publish = false

[dependencies]
rppal = "*"
thiserror = "*"
