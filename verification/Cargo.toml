[package]
name = "gated_views"
version = "0.1.0"
edition = "2021"
publish = false

[dependencies]
gloo-net = "0.2"
gloo-utils = "0.1"
log = "0.4"
serde = { version = "1", features = ["derive"] }
wasm-bindgen = "0.2"
wasm-logger = "0.2"
web-sys = { version = "0.3", features = ["Document", "Element", "Event", "EventTarget", "FocusEvent", "HtmlCollection", "HtmlInputElement", "Window"] }
yew = "0.19"
yew-router = "0.16"
