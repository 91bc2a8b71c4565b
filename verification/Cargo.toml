[package]
name = "retrodate"
version = "0.1.0"
edition = "2021"
publish = false

[dependencies]
argh = "0.1"
color-eyre = "0.6"
jiff = "0.2"
regex = "1"
serde = { version = "1", features = ["derive"] }
ureq = { version = "3", features = ["json"] }
