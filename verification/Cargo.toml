[package]
name = "escpos_usb_gadget"
version = "0.1.0"
edition = "2021"
publish = false

[dependencies]
anyhow = "1"
base64 = "0.22"
bytes = "1"
env_logger = "0.11"
log = "0.4"
nusb = "0.2"
serde = { version = "1", features = ["derive"] }
serde_json = "1"
tungstenite = "*"
usb-gadget = "*"
