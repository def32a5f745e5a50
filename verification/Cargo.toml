[package]
name = "shortcuts"
version = "0.1.0"
edition = "2021"
publish = false

[dependencies]
core-foundation = "0.10"
core-foundation-sys = "0.8"
log = "0.4"
parking_lot = "0.12"
rdev = "0.5"
