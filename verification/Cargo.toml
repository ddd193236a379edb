[package]
name = "wizard"
version = "0.1.0"
edition = "2021"
publish = false

[dependencies]
serde = { version = "=1.0.229", features = ["derive"] }
serde_json = "=1.0.154"
regex = "=1.13.1"
anyhow = "=1.0.104"
sha256 = { version = "=1.6.0", default-features = false }
url = "=2.5.8"
downloader = "=0.2.8"
which = "=8.0.6"
libc = "=0.2.191"
errno = "=0.3.14"
lazy_static = "=1.5.1"
once_cell = "=1.21.4"
clown = "=1.1.2"
display-info = "=0.5.10"
fltk = "=1.5.23"
fltk-evented = "=0.5.3"
fltk-grid = "=0.4.1"
fltk-theme = "=0.7.9"
image_search = { version = "=0.4.5", features = ["blocking"] }
