[package]
name = "ftw"
version = "0.1.0"
edition = "2021"
publish = false

[dependencies]
toml = "=1.1.6"
regex = "=1.13.1"
clap = { version = "=4.6.7", features = ["cargo"] }
rust-ini = "=0.21.3"
fs_extra = "=1.3.0"
walkdir = "=2.5.0"
liquid = "=0.26.11"
liquid-core = "=0.26.11"
kstring = "=2.0.2"
voca_rs = "=1.15.2"
