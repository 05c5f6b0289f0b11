[package]
name = "fe02"
version = "0.1.0"
edition = "2021"
publish = false

[dependencies]
clap = "*"
