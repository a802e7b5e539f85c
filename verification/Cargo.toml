[package]
name = "allog"
version = "0.1.0"
edition = "2021"
publish = false

[dependencies]
ctor = "0.2"
frida-gum = { version = "*", features = ["invocation-listener", "backtrace"] }
jemallocator = "0.5"
lazy_static = "1"
serde = { version = "1", features = ["derive"] }
serde_derive = "1"
serde_json = "1"
state = { version = "0.5", features = ["tls"] }
toml = "*"
