[package]
name = "sinab"
version = "0.1.0"
edition = "2021"
publish = false

[dependencies]
cssparser = "=0.27.2"
euclid = "=0.22.14"
html5ever = "=0.39.0"
libc = "=0.2.191"
markup5ever_rcdom = "=0.39.0"
pulldown-cmark = { version = "=0.13.5", default-features = false, features = ["html"] }
