[package]
name = "addition_drill"
version = "0.1.0"
edition = "2021"
publish = false

[dependencies]
clap = { version = "4", features = ["derive"] }
gettext-rs = "0.7"
rand = "0.8"
