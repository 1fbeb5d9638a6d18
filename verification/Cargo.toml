[package]
name = "window_bridge"
version = "0.1.0"
edition = "2021"
publish = false

[dependencies]
bytemuck = "=1.25.2"
minifb = "=0.24.0"
