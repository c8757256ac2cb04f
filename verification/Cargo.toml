[package]
name = "usbd-midi"
version = "0.1.0"
edition = "2021"
publish = false

[dependencies]
usb-device = "0.3"
midi-types = "*"
