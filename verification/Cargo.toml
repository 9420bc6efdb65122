[package]
name = "dsh-desktop"
version = "0.1.0"
edition = "2021"
publish = false

[dependencies]
base64 = "=0.22.1"
directories = "=6.0.0"
keyring = { version = "=3.6.3", features = ["apple-native", "windows-native", "linux-native"] }
open = "=5.4.5"
png = "=0.17.16"
serde = { version = "=1.0.229", features = ["derive"] }
serde_json = "=1.0.154"
