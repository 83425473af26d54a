[package]
name = "clipboard_core"
version = "0.1.0"
edition = "2021"
publish = false

[dependencies]
image = { version = "=0.25.10", default-features = false, features = ["tiff", "png"] }
urlencoding = "=2.1.3"
cocoa = "=0.27.0"
core-graphics = "=0.25.0"
objc = "=0.2.7"
objc-foundation = "=0.1.1"
objc_id = "=0.1.1"
log = "=0.4.34"
