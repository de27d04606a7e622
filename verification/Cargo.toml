[package]
name = "timeturner"
version = "0.1.0"
edition = "2021"
publish = false

[dependencies]
chrono = "0.4"
crossterm = "0.29"
get_if_addrs = "0.5"
