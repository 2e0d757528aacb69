[package]
name = "sol_viewer"
version = "0.1.0"
edition = "2021"
publish = false

[dependencies]
substring = "*"
flash-lso = "*"
futures = "*"
eframe = { version = "*", default-features = false }
rfd = { version = "*", default-features = false }
