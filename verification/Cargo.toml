[package]
name = "display_driver"
version = "0.1.0"
edition = "2021"
publish = false

[dependencies]
embedded-graphics-core = "*"
embedded-hal = "*"
embedded-hal-async = "*"
display-interface = "*"
