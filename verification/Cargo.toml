[package]
name = "usbd"
version = "0.1.0"
edition = "2021"
publish = false

[dependencies]
usb2 = "*"
heck = "0.3"
proc-macro2 = "1"
quote = "1"
