[package]
name = "selection"
version = "0.1.0"
edition = "2021"
publish = false

[dependencies]
arboard = { version = "3", default-features = false }
enigo = "*"
log = "0.4"
wl-clipboard-rs = "*"
x11-clipboard = "*"
windows = { version = "*", features = ["Win32_Foundation", "Win32_System_Com", "Win32_System_DataExchange", "Win32_System_Memory", "Win32_System_Ole", "Win32_System_Variant", "Win32_UI_Accessibility"] }
