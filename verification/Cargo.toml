[package]
name = "meowlouder"
version = "0.1.0"
edition = "2021"
publish = false

[dependencies]
crossbeam-channel = "=0.5.17"
unsafe-libopus = "=0.2.0"
