[package]
name = "apk_decompiler"
version = "0.2.1"
edition = "2021"
publish = false

[dependencies]
clap = "=2.34.0"
console = "=0.15.11"
zip = { version = "0.6", default-features = false, features = ["deflate"] }
