[package]
name = "kitt"
version = "0.1.0"
edition = "2021"
publish = false

[dependencies]
anyhow = "1"
bytemuck = "1"
nix = { version = "*", features = ["ptrace", "signal", "process"] }
rustyline = "*"
