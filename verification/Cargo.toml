[package]
name = "lc3_emulator"
version = "0.1.0"
edition = "2021"

[dependencies]
crossterm = "*"
displaydoc = "*"
enumn = "*"
