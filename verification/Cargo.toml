[package]
name = "gun_connect"
version = "0.1.0"
edition = "2021"
publish = false

[dependencies]
zeroize = "1.8"
web-sys = { version = "0.3", features = ["Window", "Location", "Storage", "console"] }
js-sys = "0.3"
wasm-bindgen-futures = "0.4"
dioxus = { version = "0.7", default-features = false, features = ["web", "macro", "html", "hooks", "signals", "launch"] }
