[package]
name = "edtui"
version = "0.1.0"
edition = "2021"
publish = false

[dependencies]
edtui-jagged = "=0.1.13"
unicode-width = "=0.2.3"
ratatui = "=0.30.2"
syntect = { version = "=5.3.0", default-features = false, features = ["default-fancy"] }
arboard = { version = "=3.7.0", default-features = false }
edit = "=0.1.5"
