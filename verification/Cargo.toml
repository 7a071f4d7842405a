[package]
name = "vellum-core"
version = "0.1.0"
edition = "2021"
publish = false

[dependencies]
hayro = "*"
image = { version = "*", default-features = false, features = ["bmp", "dds", "ff", "gif", "hdr", "ico", "jpeg", "png", "pnm", "qoi", "tga", "tiff", "webp"] }
