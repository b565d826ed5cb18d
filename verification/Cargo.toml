[package]
name = "build_my_react_js"
version = "0.1.0"
edition = "2021"
publish = false

[dependencies]
inline_colorization = "*"
