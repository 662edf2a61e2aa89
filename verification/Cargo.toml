[package]
name = "obsidian_sync"
version = "0.1.0"
edition = "2021"
publish = false

[dependencies]
chrono = "0.4"
clap = { version = "4", features = ["derive"] }
dialoguer = "0.11"
dirs = "5"
self_update = "*"
ureq = "2"
