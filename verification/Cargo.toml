[package]
name = "unienc"
version = "0.1.0"
edition = "2021"
publish = false

[dependencies]
bincode = "=2.0.1"
block2 = "=0.6.2"
objc2 = "=0.6.5"
objc2-core-foundation = "=0.3.2"
objc2-core-video = "=0.3.2"
objc2-foundation = "=0.3.2"
objc2-metal = "=0.3.2"
tokio = { version = "=1.54.1", features = ["io-util", "sync"] }
unity-native-plugin = { version = "=0.9.0", features = ["metal", "profiler"] }
