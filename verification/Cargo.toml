[package]
name = "cpuem"
version = "0.1.0"
edition = "2021"
publish = false

[dependencies]
raylib = "5"
