[package]
name = "bouffalo_hal"
version = "0.1.0"
edition = "2021"
publish = false

[dependencies]
crc = "3"
embedded-hal = "1.0"
embedded-time = "0.12"
base-address = "*"
