[package]
name = "hello_rhino"
version = "0.1.0"
edition = "2021"
publish = false

[dependencies]
auto-launch = "*"
open = "*"
