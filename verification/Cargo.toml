[package]
name = "aviutl_rs"
version = "0.1.0"
edition = "2021"
publish = false

[dependencies]
anyhow = "1"
encoding_rs = "0.8"
image = { version = "0.25", default-features = false }
num-rational = { version = "0.4", default-features = false }
rmp-serde = "1"
serde = "1"
windows-sys = { version = "0.52", features = ["Win32_Foundation"] }
