[package]
name = "badges"
version = "0.1.0"
edition = "2021"
publish = false

[dependencies]
askama = "0.12"
rustybuzz = "0.7"
clap = { version = "4", features = ["derive"] }
once_cell = "1"
thiserror = "1"
