[package]
name = "launchpad"
version = "0.1.0"
edition = "2021"
publish = false

[dependencies]
palette = { version = "0.7", default-features = false, features = ["libm"] }
midir = "0.5"
portmidi = "0.2"
clap = "2"
