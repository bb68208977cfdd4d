[package]
name = "radio_screen"
version = "0.1.0"
edition = "2021"
publish = false

[dependencies]
anyhow = "=1.0.104"
chrono = "=0.4.45"
clerk = "=0.4.0"
crossterm = "=0.29.0"
gpio-cdev = "=0.6.0"
log = "=0.4.34"
pnet = "=0.35.0"
rmp-serde = "1.3"
serde = { version = "=1.0.229", features = ["derive"] }
smol = "=1.3.0"
toml = "=0.5.11"
