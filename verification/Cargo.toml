[package]
name = "searchhelp"
version = "0.1.0"
edition = "2021"
publish = false

[dependencies]
clap = "*"
colored = "*"
crossterm = "*"
rusqlite = { version = "*", features = ["bundled"] }
