[package]
name = "puma_terminal"
version = "0.1.0"
edition = "2021"
publish = false

[dependencies]
arboard = { version = "3", default-features = false }
base64 = "0.22"
unicode-width = "0.2"
unicode-segmentation = "1"
percent-encoding = "2"
crossterm = "0.28"
thiserror = "2"
