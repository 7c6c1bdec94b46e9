[package]
name = "file_utility"
version = "0.1.0"
edition = "2021"
publish = false

[dependencies]
anyhow = "1"
libc = "0.2"
termion = "1.5"
tui = { version = "0.16", default-features = false, features = ["termion"] }
unicode-width = "0.1"
