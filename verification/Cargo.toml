[package]
name = "verso_rendering"
version = "0.1.0"
edition = "2021"
publish = false

[dependencies]
dpi = "*"
euclid = "*"
gleam = "*"
glutin = "*"
glutin-winit = "*"
log = "*"
raw-window-handle = "*"
webrender_api = "*"
winit = "*"
