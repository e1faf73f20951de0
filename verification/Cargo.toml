[package]
name = "ds4u"
version = "0.1.0"
edition = "2021"
publish = false

[dependencies]
anyhow = "=1.0.104"
crc = "=3.4.0"
dirs = "=7.0.0"
hidapi = { version = "=2.6.7", default-features = false, features = ["linux-native-basic-udev"] }
reqwest = { version = "=0.12.28", features = ["blocking", "json"] }
serde = { version = "=1.0.229", features = ["derive"] }
serde_json = "=1.0.154"
