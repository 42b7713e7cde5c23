[package]
name = "pin_ui"
version = "0.1.0"
edition = "2021"
publish = false

[dependencies]
embedded-hal = "1"
embedded-time = "0.12"
