[package]
name = "pong"
version = "0.1.0"
edition = "2021"
publish = false

[dependencies]
cgmath = "0.16"
noise = "0.4"
rand = "0.4"
