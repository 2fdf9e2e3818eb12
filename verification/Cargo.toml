[package]
name = "textractor_nfkc"
version = "0.1.0"
edition = "2021"
publish = false

[dependencies]
unicode-normalization = "*"
widestring = "*"
windows-sys = { version = "*", features = ["Win32_Foundation", "Win32_System_Memory"] }
