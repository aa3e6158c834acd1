[package]
name = "passepartui"
version = "0.1.0"
edition = "2021"
publish = false

[dependencies]
anyhow = "1"
arboard = "3"
dirs = "*"
futures = { version = "0.3", features = ["thread-pool"] }
icu = "1"
passepartout = "*"
ratatui = "0.29"
