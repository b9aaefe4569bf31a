[package]
name = "bubbles"
version = "0.1.0"
edition = "2021"
publish = false

[dependencies]
async-channel = "=2.5.0"
axum = "=0.7.9"
libc = "=0.2.191"
relm4 = { version = "=0.9.1", features = ["libadwaita", "gnome_46"] }
tokio = { version = "=1.54.1", features = ["full"] }
