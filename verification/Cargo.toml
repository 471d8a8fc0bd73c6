[package]
name = "cs2_overlay"
version = "0.1.0"
edition = "2021"
publish = false

[dependencies]
egui = "=0.29.1"
nalgebra = "=0.35.0"
bytemuck = "=1.25.2"
crossbeam-channel = "=0.5.17"
eyre = "=0.6.14"
lazy_static = "=1.5.1"
process-memory = "=0.5.0"
proc_mem = "=0.1.6"
winapi = { version = "=0.3.9", features = ["winuser", "windef"] }
egui_overlay = "=0.9.0"
egui-phosphor = "=0.7.3"
catppuccin-egui = { version = "=5.7.0", default-features = false, features = ["egui29"] }
