[package]
name = "bevy_midi"
version = "0.1.0"
edition = "2021"
publish = false

[dependencies]
bevy = { version = "0.17", default-features = false, features = ["std", "bevy_log"] }
crossbeam-channel = "0.5"
js-sys = "0.3"
midir = "0.10"
midly = { version = "0.5", default-features = false, features = ["std", "alloc"] }
send_wrapper = "0.6"
wasm-bindgen = "0.2"
wasm-bindgen-futures = "0.4"
web-sys = { version = "0.3", features = ["Window"] }
