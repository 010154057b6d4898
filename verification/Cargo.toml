[package]
name = "chat_sync"
version = "0.1.0"
edition = "2021"
publish = false

[dependencies]
leptos = "0.6"
gloo-net = "0.6"
futures = "0.3"
web-sys = { version = "0.3", features = ["Window", "Location"] }
