[package]
name = "heightfield"
version = "0.1.0"
edition = "2021"
publish = false

[dependencies]
base64 = "=0.13.1"
bracket-noise = "=0.8.7"
byteorder = "=1.5.0"
console_error_panic_hook = "=0.1.7"
console_log = "=1.1.0"
image = { version = "=0.24.9", default-features = false, features = ["png"] }
rand = "=0.8.8"
wasm-bindgen = "=0.2.129"
web-sys = { version = "=0.3.106", features = ["Window", "Document", "Element", "Node", "HtmlTableElement", "HtmlTableRowElement"] }
