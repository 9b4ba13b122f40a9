[package]
name = "cultures_assets"
version = "0.1.0"
edition = "2021"
publish = false

[dependencies]
byteorder = "1"
futures-channel = "0.3"
js-sys = "0.3"
wasm-bindgen = "0.2"
web-sys = { version = "0.3", features = ["Blob", "FileReader", "ProgressEvent", "Event", "EventTarget"] }

[dev-dependencies]
regex = "1"
