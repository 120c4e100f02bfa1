[package]
name = "glib"
version = "0.1.0"
edition = "2021"
publish = false

[dependencies]
libc = "0.2"
smallvec = "1"
once_cell = "1"
futures-channel = "0.3"
futures-core = "0.3"
futures-task = "0.3"
futures-util = "0.3"
thiserror = "1"
serde = { version = "1", features = ["derive"] }
glib-sys = "0.18"
gobject-sys = "0.18"
