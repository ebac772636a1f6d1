[package]
name = "ferros"
version = "0.1.0"
edition = "2021"
publish = false

[dependencies]
clap = "=2.34.0"
rlibc = "=1.0.0"
spin = "=0.9.9"
x86 = "=0.52.0"
x86_64 = { version = "=0.15.5", default-features = false, features = ["instructions"] }
