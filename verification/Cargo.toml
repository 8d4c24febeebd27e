[package]
name = "pong"
version = "0.1.0"
edition = "2021"
publish = false

[dependencies]
glam = "=0.33.12"
cgmath = "=0.18.0"
blitzkit = "=0.14.0"
