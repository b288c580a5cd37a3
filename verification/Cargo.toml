[package]
name = "glutin_egl"
version = "0.1.0"
edition = "2021"
publish = false

[dependencies]
glow = "0.16"
glutin = { version = "0.32", default-features = false, features = ["egl", "wayland"] }
log = "0.4"
parking_lot = "0.12"
profiling = "1"
raw-window-handle = "0.6"
