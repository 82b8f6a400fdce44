[package]
name = "realm_monitor"
version = "0.1.0"
edition = "2021"
publish = false

[dependencies]
aarch64-cpu = "11"
log = "=0.4.34"
spin = "=0.9.9"
