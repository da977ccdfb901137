[package]
name = "gvm_led"
version = "0.1.0"
edition = "2021"
publish = false

[dependencies]
btleplug = "*"
tokio = { version = "*", features = ["rt-multi-thread", "macros", "time", "sync"] }
futures = "*"
uuid = "*"
dbus = { version = "*", features = ["vendored"] }
