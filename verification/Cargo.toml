[package]
name = "lunar"
version = "0.1.0"
edition = "2021"
publish = false

[dependencies]
chrono = { version = "0.4", features = ["serde"] }
rand = "0.8"
serde = { version = "1", features = ["derive"] }
wasm-bindgen = "0.2"
web-sys = { version = "0.3", features = ["Window", "HtmlInputElement", "HtmlElement", "Event", "InputEvent", "MouseEvent"] }
yew = { version = "0.20", features = ["csr"] }
yewdux = "0.9"
