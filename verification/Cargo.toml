[package]
name = "hal_error"
version = "0.1.0"
edition = "2021"
publish = false

[dependencies]
embedded-hal = "1"
embedded-hal-nb = "1"
embedded-can = "*"
embedded-io = "*"
