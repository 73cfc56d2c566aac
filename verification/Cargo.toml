[package]
name = "mylog"
version = "0.1.0"
edition = "2021"
publish = false

[dependencies]
chrono = "*"
rayon = "*"
zip = { version = "*", default-features = false, features = ["deflate"] }
