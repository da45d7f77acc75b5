[package]
name = "hgtui"
version = "0.1.0"
edition = "2021"
publish = false

[dependencies]
nipper = "0.1"
regex = "1"
unicode-width = "0.1"
anyhow = "1"
better-panic = "0.3"
chrono = "0.4"
clap = { version = "3", features = ["derive"] }
crossbeam-channel = "0.5"
crossterm = "0.23"
reqwest = { version = "0.11", features = ["blocking"] }
tui = "0.18"
webbrowser = "0.7"
