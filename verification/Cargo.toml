[package]
name = "color_print"
version = "0.1.0"
edition = "2021"
publish = false

[dependencies]
wai-bindgen-rust = { version = "*", default-features = false }

[dev-dependencies]
rand = "0.8"
colors-transform = "*"
