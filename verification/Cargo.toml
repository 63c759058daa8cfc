[package]
name = "ytmp3"
version = "0.1.0"
edition = "2021"
publish = false

[dependencies]
tar = "*"
xz2 = "*"
sevenz-rust = "*"
sysinfo = "*"
reqwest = { version = "*", default-features = false, features = ["blocking"] }
