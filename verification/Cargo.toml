[package]
name = "folia"
version = "0.1.0"
edition = "2021"
publish = false

[dependencies]
quick-xml = "0.22"
rand = "0.8"
hex = "0.4"
chrono = "0.4"
clap = "2"
libc = "0.2"
