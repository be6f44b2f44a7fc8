[package]
name = "spaghetti"
version = "0.1.0"
edition = "2021"
publish = false

[dependencies]
unreal_asset = "=0.1.16"
clap = { version = "=4.6.7", features = ["derive"] }
rfd = { version = "=0.17.2", default-features = false, features = ["xdg-portal"] }
