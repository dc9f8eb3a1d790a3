[package]
name = "charts"
version = "0.1.0"
edition = "2021"
publish = false

[dependencies]
meval = "0.2"
tera = { version = "1", default-features = false }
