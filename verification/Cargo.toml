[package]
name = "camlet"
version = "0.2.0"
edition = "2021"
publish = false

[dependencies]
serde = { version = "=1.0.229", features = ["derive"] }
serde_json = { version = "=1.0.154", features = ["preserve_order"] }
thiserror = "=2.0.21"
directories = "=6.0.0"
atomic-write-file = "=0.2.3"
sys-locale = "=0.3.2"
num-traits = "=0.2.19"
async-channel = "=2.5.0"
nokhwa = { version = "=0.10.11", features = ["input-native"] }
