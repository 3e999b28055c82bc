[package]
name = "nwg_core"
version = "0.1.0"
edition = "2021"
publish = false

[dependencies]
winapi = { version = "0.3", features = ["winuser", "libloaderapi", "wingdi", "windef", "minwindef"] }
native-windows-gui = "1"
native-windows-derive = "1"
