[package]
name = "pong"
version = "0.1.0"
edition = "2021"
publish = false

[dependencies]
ggez = "0.5"
rand = "0.7"
