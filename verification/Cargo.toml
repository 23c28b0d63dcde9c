[package]
name = "mailnav"
version = "0.1.0"
edition = "2021"
publish = false

[dependencies]
email = "0.0"
mbox-reader = "*"
termion = "1"
tui = "0.2"
