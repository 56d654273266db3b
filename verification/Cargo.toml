[package]
name = "arl"
version = "0.1.0"
edition = "2021"
publish = false

[dependencies]
termion = "=1.5.1"
termios = "=0.3.3"
