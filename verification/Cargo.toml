[package]
name = "rust_box"
version = "0.0.25"
edition = "2021"
publish = false

[dependencies]
backtrace = "0.3"
chrono = "0.4"
once_cell = "1"
pathdiff = "*"
