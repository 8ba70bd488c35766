[package]
name = "electron_pan_clip"
version = "0.1.0"
edition = "2021"
publish = false

[dependencies]
cocoa = "0.25"
napi = "2"
napi-derive = "2"
objc = "0.2"
windows-sys = { version = "0.52", features = ["Win32_Foundation", "Win32_System_DataExchange", "Win32_System_Memory", "Win32_UI_Shell"] }
