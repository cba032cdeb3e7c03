[package]
name = "imgflash"
version = "0.1.0"
edition = "2021"
publish = false

[dependencies]
sha2 = "=0.11.1"
crossterm = "=0.28.1"
winapi = { version = "=0.3.9", features = ["winbase"] }
