[package]
name = "port_expander"
version = "0.1.0"
edition = "2021"
publish = false

[dependencies]
shared-bus = { version = "*", default-features = false }
