[package]
name = "tanoshi"
version = "0.1.0"
edition = "2021"
publish = false

[dependencies]
http = "0.2"
base64 = "0.13"
yew = { version = "0.17", features = ["web_sys"] }
yew-router = "0.14"
web-sys = { version = "0.3", features = ["HtmlElement", "DomTokenList", "Window", "Document", "Element", "Location", "CacheStorage", "MouseEvent", "HtmlSelectElement", "Storage"] }
wasm-bindgen = "0.2"
serde = { version = "1", features = ["derive"] }
serde_json = "1"
anyhow = "1"
log = "0.4"
