[package]
name = "powerkey"
version = "0.1.0"
edition = "2021"
publish = false

[dependencies]
easy-ext = "1"
futures = "0.3"
iced = { version = "0.13", default-features = false, features = ["advanced", "smol", "tiny-skia"] }
itertools = "0.14"
log = "0.4"
oneshot = "0.1"
pretty_env_logger = "0.5"
rdev = { version = "0.5", features = ["serialize", "unstable_grab"] }
serde = { version = "1", features = ["derive"] }
serde_json = "1"
smol = "2"
