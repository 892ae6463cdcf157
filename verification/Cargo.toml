[package]
name = "nouislider"
version = "0.1.0"
edition = "2021"
publish = false

[dependencies]
chrono = "0.4"
rand = "0.8"
serde = { version = "1", features = ["derive"] }
log = "0.4"
wasm-bindgen = "0.2"
js-sys = "0.3"
web-sys = { version = "0.3", features = ["Document", "Element", "HtmlElement", "HtmlDivElement", "Node", "NodeList", "Window"] }
gloo-utils = "0.2"
serde-wasm-bindgen = "0.6"
wasm-logger = "0.2"
yew = { version = "0.21", features = ["csr"] }
