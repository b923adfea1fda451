[package]
name = "yewchat"
version = "0.1.0"
edition = "2021"
publish = false

[dependencies]
serde_json = "1"
log = "0.4"
wasm-bindgen = "0.2"
web-sys = { version = "0.3", features = ["Document", "Element", "Event", "HtmlElement", "HtmlInputElement", "KeyboardEvent", "MessageEvent", "WebSocket", "Window"] }
yew = "0.19"
yew-agent = "0.1"
