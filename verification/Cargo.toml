[package]
name = "procactivity"
version = "0.1.0"
edition = "2021"
publish = false

[dependencies]
anyhow = "1"
clap = "4"
comfy-table = "7"
im = "15"
libc = "0.2"
nix = { version = "0.27.1", features = ["personality", "process", "ptrace", "signal"] }
syscalls = "0.6"
uzers = "0.11"
