[package]
name = "acontrol"
version = "0.1.0"
edition = "2021"
publish = false

[dependencies]
chrono = "=0.4.45"
clap = "=2.34.0"
lazy_static = "=1.5.1"
nix = "=0.26.4"
libc = "=0.2.191"
serde = { version = "=1.0.229", features = ["derive"] }
serde_derive = "=1.0.229"
serde_json = "=1.0.154"
serialport = { version = "=4.10.1", default-features = false }
spidev = "=0.6.1"
sysfs_gpio = "=0.6.2"
rusqlite = { version = "=0.29.0", features = ["bundled"] }
tokio = { version = "=1.54.1", features = ["full"] }
bluer = { version = "=0.16.1", features = ["bluetoothd"] }
async-trait = "=0.1.92"
iron = "=0.6.1"
router = "=0.6.0"
bodyparser = "=0.8.0"
futures = "=0.3.34"
