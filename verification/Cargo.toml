[package]
name = "minijinja_render"
version = "0.1.0"
edition = "2021"
publish = false

[dependencies]
minijinja = { version = "*", features = ["loader"] }
serde_json = "*"

[dev-dependencies]
tempfile = "*"
fs-err = "*"
