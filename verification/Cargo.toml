[package]
name = "hlshell"
version = "0.1.0"
edition = "2021"
publish = false

[dependencies]
bootloader = { version = "=0.9.35", features = ["map_physical_memory"] }
x86_64 = { version = "=0.15.5", default-features = false, features = ["instructions"] }
