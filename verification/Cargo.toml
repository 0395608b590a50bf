[package]
name = "lens_ocr"
version = "0.1.0"
edition = "2021"
publish = false

[dependencies]
anyhow = "1"
arboard = "3"
image = "*"
regex = "1"
serde_json = "1"
serde_json5 = "*"
ureq = "2"
