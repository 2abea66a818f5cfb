[package]
name = "below"
version = "0.1.0"
edition = "2021"
publish = false

[dependencies]
anyhow = "1"
cursive = { version = "0.15", default-features = false, features = ["crossterm-backend"] }
hostname = "0.3"
libc = "0.2"
os_info = { version = "3", default-features = false }
regex = "1"
slog = "2"
