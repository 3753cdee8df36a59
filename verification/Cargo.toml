[package]
name = "devmon"
version = "0.1.0"
edition = "2021"
publish = false

[dependencies]
devd-rs = "*"
runloop = "*"
