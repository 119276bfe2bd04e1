[package]
name = "g7pro"
version = "0.1.0"
edition = "2021"
publish = false

[dependencies]
clap = { version = "4", features = ["derive"] }
hidapi = { version = "2.6", default-features = false, features = ["linux-native-basic-udev"] }
