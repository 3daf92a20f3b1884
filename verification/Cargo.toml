[package]
name = "qliphoth_native"
version = "0.1.0"
edition = "2021"
publish = false

[dependencies]
arboard = "3"
bytemuck = { version = "1", features = ["derive"] }
cosmic-text = "0.12"
glib = "0.20"
gtk4 = "0.9"
log = "0.4"
once_cell = "1"
parking_lot = "0.12"
pollster = "0.3"
smithay-clipboard = "0.7"
taffy = "0.5"
wgpu = "23"
winit = "0.30"
x11rb = "0.13"
