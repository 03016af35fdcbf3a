[package]
name = "neo_eink"
version = "0.1.0"
edition = "2021"
publish = false

[dependencies]
clap = "=2.34.0"
embedded-graphics = "=0.4.9"
embedded-hal = { version = "=0.2.7", features = ["unproven"] }
epd-waveshare = "=0.2.0"
input-stream = "=0.4.0"
linux-embedded-hal = "=0.3.2"
sysfs_gpio = "=0.6.2"
