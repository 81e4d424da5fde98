[package]
name = "doh_query"
version = "0.1.0"
edition = "2021"
publish = false

[dependencies]
trust-dns-proto = { version = "*", default-features = false }
wasm-bindgen = "*"
wasm-bindgen-futures = "*"
js-sys = "*"
web-sys = { version = "*", features = ["Headers", "Request", "RequestInit", "RequestMode", "Response", "Window"] }
