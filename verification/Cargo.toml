[package]
name = "glide"
version = "0.5.5"
edition = "2021"
publish = false

[dependencies]
crossbeam-channel = "=0.2.6"
dirs = "=0.3.1"
gio = "=0.9.1"
glib = "=0.10.3"
gstreamer = "=0.16.7"
gstreamer-player = "=0.16.5"
gtk = "=0.9.2"
self_update = "=0.4.5"
serde = "=1.0.229"
serde_derive = "=1.0.229"
serde_json = "=1.0.154"

[lints.rust]
unexpected_cfgs = { level = "warn", check-cfg = ['cfg(feature, values("self-updater"))'] }
