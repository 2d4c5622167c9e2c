[package]
name = "extr"
version = "0.1.0"
edition = "2021"
publish = false

[dependencies]
which = "*"
anyhow = "1"
clap = { version = "4", features = ["derive"] }
crossbeam-channel = "0.5"
owo-colors = "4"
