[package]
name = "cframe"
version = "0.1.0"
edition = "2021"
publish = false

[dependencies]
glam = "0.23"
mlua = { version = "0.8", features = ["luau"] }
rbx_dom_weak = "2.4"
