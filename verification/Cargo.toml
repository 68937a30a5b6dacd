[package]
name = "aa_proxy"
version = "0.1.0"
edition = "2021"
publish = false

[dependencies]
anyhow = "=1.0.104"
bluer = { version = "=0.17.4", features = ["bluetoothd", "rfcomm"] }
bytesize = "=1.3.3"
config = "=0.15.27"
dbus = { version = "=0.9.12", features = ["vendored"] }
futures = "=0.3.34"
humantime = "=2.4.0"
indexmap = { version = "=2.14.2", features = ["serde"] }
libc = "=0.2.191"
mac_address = "=1.2.1"
protobuf = "=3.7.2"
serde = { version = "=1.0.229", features = ["derive"] }
serde_json = "=1.0.154"
serde_with = "=3.24.0"
simplelog = { version = "=0.12.2", features = ["paris"] }
tokio = { version = "=1.54.1", features = ["full"] }
tokio-util = "=0.7.20"
toml_edit = "=0.25.17"
