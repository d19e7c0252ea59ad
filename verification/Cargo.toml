[package]
name = "sunrise"
version = "0.1.0"
edition = "2021"
publish = false

[dependencies]
libm = "0.2"

[dev-dependencies]
chrono = "0.4"
