[package]
name = "window_class_finder"
version = "0.1.0"
edition = "2021"
publish = false

[dependencies]
image = { version = "0.25", default-features = false, features = ["png"] }
eframe = { version = "0.29", default-features = false, features = ["glow", "x11"] }
egui_extras = { version = "0.29", default-features = false }
arboard = { version = "3", default-features = false }
clipboard-win = "5"
raw-window-handle = "0.6"
