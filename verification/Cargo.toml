[package]
name = "pomodoro"
version = "0.1.0"
edition = "2021"
publish = false

[dependencies]
instant = "=0.1.13"
print_duration = "=1.0.1"
yew = { version = "=0.20.0", features = ["csr"] }
stylist = { version = "=0.12.1", features = ["yew_integration"] }
gloo = "=0.8.1"
gloo-utils = "=0.1.7"
js-sys = "=0.3.106"
serde = { version = "=1.0.229", features = ["derive"] }
wasm-bindgen = "=0.2.129"
wasm-bindgen-futures = "=0.4.79"
web-sys = { version = "=0.3.106", features = ["Window", "Document", "Element", "HtmlElement", "HtmlCollection", "HtmlMetaElement", "MediaQueryList"] }
