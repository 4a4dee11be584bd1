[package]
name = "boe"
version = "0.1.0"
edition = "2021"
publish = false

[dependencies]
anyhow = "1"
arc-swap = "1"
async-std = "1"
axum = "=0.8.9"
config = "0.15"
lazy_static = "1"
merge = "=0.1.0"
native-tls = "0.2"
rumqttc = { version = "=0.25.1", default-features = false, features = ["use-native-tls"] }
serde = { version = "1", features = ["derive", "rc"] }
serde_json = "=1.0.154"
suppaftp = { version = "=6.3.0", features = ["async-native-tls", "deprecated"] }
surge-ping = "0.8"
tokio = { version = "1", features = ["macros", "net", "rt-multi-thread", "sync", "time"] }
tracing = "0.1"
tracing-subscriber = "0.3"
typed-path = "=0.10.0"
unix_path = "=1.0.1"
zip = { version = "=2.6.1", default-features = false, features = ["deflate"] }

[dev-dependencies]
regex = "1"
