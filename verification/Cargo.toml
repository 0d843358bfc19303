[package]
name = "usbd_gs"
version = "0.1.0"
edition = "2021"
publish = false

[dependencies]
scroll = "=0.11.0"
ringbuffer = "=0.16.0"
usb-device = "=0.2.9"
embedded-hal = "=0.2.7"
mcp2515 = "0.2"
rp-pico = "0.7"
cortex-m = "0.7"
cortex-m-rt = "0.7"
defmt-rtt = "0.4"
panic-probe = { version = "0.3", features = ["print-defmt"] }
fugit = "0.3"
