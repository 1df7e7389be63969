[package]
name = "clip_paste"
version = "0.1.0"
edition = "2021"
publish = false

[dependencies]
log = "0.4"
cocoa = "0.26"
core-graphics = "0.24"
objc = "0.2"
