[package]
name = "foxtheme"
version = "0.1.0"
edition = "2021"
publish = false

[dependencies]
anyhow = "1"
argh = "0.1"
directories = "*"
git2 = { version = "*", default-features = false }
rust-ini = "*"
url = "2"
walkdir = "2"
