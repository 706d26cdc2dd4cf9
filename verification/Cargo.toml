[package]
name = "ds4"
version = "0.1.0"
edition = "2021"
publish = false

[dependencies]
hidapi = { version = "=2.6.7", default-features = false, features = ["linux-native-basic-udev"] }
