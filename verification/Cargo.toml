[package]
name = "fzn_gtk"
version = "0.1.0"
edition = "2021"
publish = false

[dependencies]
gio-sys = "0.18"
glib = "0.18"
glib-sys = "0.18"
gobject-sys = "0.18"
gtk = "0.18"
gtk-sys = "0.18"
libc = "0.2"
