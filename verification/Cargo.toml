[package]
name = "svlog_core"
version = "0.1.0"
edition = "2021"
publish = false

[dependencies]
num = "0.4"
bit-vec = "0.6"
moore-common = "*"
