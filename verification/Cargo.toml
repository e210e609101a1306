[package]
name = "time_trampoline"
version = "0.1.0"
edition = "2021"
publish = false

[dependencies]
tz-rs = "*"
tzdb = "*"
