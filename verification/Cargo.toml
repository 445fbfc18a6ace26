[package]
name = "svg2png"
version = "0.1.0"
edition = "2021"
publish = false

[dependencies]
resvg = "0.22"
usvg = "0.22"
tiny-skia = "0.6"
png = "0.17"
url = "2"
serde = { version = "1", features = ["derive"] }
worker = "*"
console_error_panic_hook = "0.1"
