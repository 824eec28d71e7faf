[package]
name = "image_chooser"
version = "0.1.0"
edition = "2021"
publish = false

[dependencies]
chrono = "=0.4.45"
csv = "=1.4.0"
directories = "=6.0.0"
rusqlite = "=0.40.2"
rusqlite_migration = "=2.6.0"
thiserror = "=2.0.21"
walkdir = "=2.5.0"
kamadak-exif = "=0.6.1"
image = { version = "=0.25.10", default-features = false, features = ["jpeg", "png"] }
iced = { version = "=0.14.0", default-features = false, features = ["image-without-codecs", "tiny-skia", "x11", "wayland", "thread-pool"] }
