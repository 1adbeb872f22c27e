[package]
name = "cw_adapter"
version = "0.1.0"
edition = "2021"
publish = false

[dependencies]
embassy-usb = "=0.6.0"
embassy-time = "=0.5.1"
embassy-sync = "=0.7.2"
embassy-executor = "=0.9.1"
embassy-rp = { version = "=0.10.0", features = ["rp2040"] }
usbd-hid = "=0.10.2"
defmt = "=1.2.0"
static_cell = "=2.1.1"
cortex-m = "=0.7.10"
fixed = "=1.31.0"
