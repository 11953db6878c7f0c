[package]
name = "taskbridge"
version = "0.1.0"
edition = "2021"
publish = false

[dependencies]
taskchampion = "=2.0.3"
serde_json = "=1.0.151"
uuid = "=1.27.0"
chrono = "=0.4.45"
jni = "=0.21.1"
log = "=0.4.34"
android_logger = "=0.15.1"

[dev-dependencies]
tempfile = "=3.27.0"
