[package]
name = "easy_gnome"
version = "0.1.0"
edition = "2021"
publish = false

[dependencies]
base64 = "0.21"
image = { version = "0.24", default-features = false, features = ["png"] }
zbus = "3"
zvariant = "3"
upower_dbus = "0.3"
gio = "0.18"
gtk = "0.18"
