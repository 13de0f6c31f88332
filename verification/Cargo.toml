[package]
name = "shelly"
version = "0.1.0"
edition = "2021"
publish = false

[dependencies]
clap = { version = "4", features = ["derive"] }
dirs = "*"
indicatif = "0.17"
json = "0.12"
nix = "*"
pnet = "*"
reqwest = { version = "*", features = ["blocking"] }
terminal-menu = "*"
termios = "0.3"
