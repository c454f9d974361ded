[package]
name = "project_diff"
version = "0.1.0"
edition = "2021"
publish = false

[dependencies]
anyhow = "1"
futures = "0.3"
postage = { version = "0.5", features = ["futures-traits"] }
resvg = "0.14"
strum = { version = "*", features = ["derive"] }
tiny-skia = "0.5"
usvg = "0.14"
