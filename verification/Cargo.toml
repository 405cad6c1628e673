[package]
name = "palette"
version = "0.1.0"
edition = "2021"
publish = false

[dependencies]
arrayvec = "0.7"
more-asserts = "0.3"
