[package]
name = "sslflash"
version = "0.1.0"
edition = "2021"
publish = false

[dependencies]
serialport = "*"
rfd = "*"
indicatif = "*"
colored = "*"
terminal-menu = "*"
clearscreen = "*"
