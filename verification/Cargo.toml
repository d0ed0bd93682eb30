[package]
name = "dioxus_clipboard"
version = "0.1.0"
edition = "2021"
publish = false

[dependencies]
copypasta = "=0.10.2"
dioxus = { version = "=0.7.10", default-features = false, features = ["signals", "hooks", "logger"] }
raw-window-handle = "=0.6.2"
wasm-bindgen-futures = "=0.4.79"
web-sys = { version = "=0.3.106", features = ["Window", "Navigator", "Clipboard"] }
