[package]
name = "twitch_controller"
version = "0.1.0"
edition = "2021"
publish = false

[dependencies]
log = "0.4"
rdev = "0.5"
simple-logging = "2"
tokio = { version = "1", features = ["macros", "rt", "sync", "time"] }
tokio-util = "0.7"
twitch-irc = "5"
yaml-rust = "0.4"
