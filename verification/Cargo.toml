[package]
name = "tty_control"
version = "0.1.0"
edition = "2021"
publish = false

[dependencies]
libc = "0.2"
nix = "0.26"
rustix = { version = "0.38", features = ["termios", "stdio"] }
