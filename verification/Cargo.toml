[package]
name = "pi_firmware"
version = "0.1.0"
edition = "2021"
publish = false

[dependencies]
volatile = "=0.3.0"
xmodem = "*"
serial = "*"
clap = { version = "*", features = ["derive"] }
