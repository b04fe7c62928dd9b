[package]
name = "rusted_ruins"
version = "0.1.0"
edition = "2021"
publish = false

[dependencies]
fluent = "=0.17.0"
intl-memoizer = "=0.5.3"
unic-langid = "=0.9.6"
regex = "=1.13.1"
walkdir = "=2.5.0"
