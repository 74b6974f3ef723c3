[package]
name = "solace-session"
version = "0.1.0"
edition = "2021"
publish = false

[dependencies]
solace-rs-sys = "1.1"
tracing = "0.1"
