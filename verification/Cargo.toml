[package]
name = "server_socket"
version = "0.1.0"
edition = "2021"
publish = false

[dependencies]
async-trait = "0.1"
futures-channel = "0.3"
futures-util = "0.3"
log = "0.4"
naia-socket-shared = "0.4.2"
webrtc-unreliable = "0.5.3"
wasm-bindgen = "0.2"
web-sys = { version = "0.3", features = ["Window"] }
