[package]
name = "event_source"
version = "0.1.0"
edition = "2021"
publish = false

[dependencies]
default-struct-builder = "0.5"
leptos = "0.8"
send_wrapper = "0.6"
thiserror = "2"
wasm-bindgen = "0.2"
web-sys = { version = "0.3", features = ["Event", "EventSource", "EventSourceInit", "EventTarget", "MessageEvent"] }
