[package]
name = "mpn"
version = "0.1.0"
edition = "2021"
publish = false

[dependencies]
chrono = { version = "0.4", default-features = false, features = ["std"] }
clap = "4"
filetime = "0.2"
mp4parse = "0.17"
no_color = "*"
