[package]
name = "robot_hal"
version = "0.5.0"
edition = "2021"
publish = false

[dependencies]
can-hal-pcan = "=0.4.3"
can-hal-rs = "=0.4.3"
can-hal-socketcan = "=0.4.3"
clap = { version = "=4.6.7", features = ["derive"] }
getrandom = "=0.3.4"
libc = "=0.2.191"
libloading = "=0.8.9"
libgpiod = "*"
neli = "=0.6.5"
nusb = "=0.2.9"
percent-encoding = "=2.3.2"
serde = { version = "=1.0.229", features = ["derive"] }
serde_json = "=1.0.154"
sha2 = "=0.10.9"
socketcan = "=3.6.2"
subtle = "=2.6.1"
tokio = { version = "=1.54.1", features = ["fs", "io-util", "macros", "net", "rt-multi-thread", "signal", "sync", "time"] }
tokio-serial = "=5.5.0"
tracing = "=0.1.44"
tracing-subscriber = { version = "=0.3.23", features = ["env-filter", "json"] }
v4l = "*"
zeroize = "=1.9.1"
