[package]
name = "evscript"
version = "0.1.0"
edition = "2021"
publish = false

[dependencies]
clap = "=4.6.7"
dyon = "=0.51.3"
evdev = "=0.13.2"
nix = { version = "=0.26.4", features = ["user", "process", "fs", "poll"] }
range = "=1.0.0"
rusty-sandbox = "=0.2.1"
