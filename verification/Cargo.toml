[package]
name = "pe_reader"
version = "0.1.0"
edition = "2021"
publish = false

[dependencies]
anyhow = "1"
chrono = "0.4"
crossterm = "0.27"
iced-x86 = "1"
ratatui = "0.26"
strum = { version = "0.26", features = ["derive"] }
termcolor = "1"
