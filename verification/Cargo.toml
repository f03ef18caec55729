[package]
name = "web_video"
version = "0.1.0"
edition = "2021"
publish = false

[dependencies]
crossbeam-channel = "*"
wasm-bindgen = "*"
gloo-events = "*"

[dependencies.web-sys]
version = "*"
features = [
    "Document",
    "Element",
    "Event",
    "EventTarget",
    "HtmlElement",
    "HtmlMediaElement",
    "HtmlVideoElement",
    "Window",
]
