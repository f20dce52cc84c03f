[package]
name = "bubblebox"
version = "0.1.0"
edition = "2021"
publish = false

[dependencies]
itoa = "=1.0.18"
rustix = { version = "=1.1.6", features = ["thread", "fs", "process", "net", "mount", "pipe", "event", "system", "stdio"] }
bytemuck = { version = "=1.25.2", features = ["derive"] }
lexopt = "=0.3.2"
anyhow = "=1.0.104"
linux-raw-sys = { version = "=0.12.1", features = ["general", "net", "netlink", "errno", "ioctl"] }
zip = { version = "=9.2.2", default-features = false }
dbus = "=0.9.12"
uuid = { version = "=1.29.0", features = ["v4"] }
scopeguard = "=1.2.0"
libc = "=0.2.191"
