[package]
name = "ruspiro_push"
version = "0.1.0"
edition = "2021"
publish = false

[dependencies]
clap = "2"
serial = "0.4"
