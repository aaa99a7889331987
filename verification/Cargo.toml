[package]
name = "mapper"
version = "0.1.0"
edition = "2021"
publish = false

[dependencies]
zbus = { version = "3", default-features = false, features = ["tokio"] }
tokio = { version = "1", features = ["macros", "rt-multi-thread", "time"] }
futures-util = "0.3"
