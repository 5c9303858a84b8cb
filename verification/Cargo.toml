[package]
name = "peel_ip"
version = "0.1.0"
edition = "2021"
publish = false

[dependencies]
log = "=0.3.9"
nom = { version = "=2.2.1", features = ["verbose-errors"] }
path = "=0.8.2"
peel = "=0.8.0"
