[package]
name = "slot"
version = "0.1.0"
edition = "2021"
publish = false

[dependencies]
lz4_flex = "=0.11.6"
gilrs = "=0.11.2"
winit = "=0.30.13"
png = "0.17"
