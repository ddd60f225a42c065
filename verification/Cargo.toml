[package]
name = "skylight"
version = "0.1.0"
edition = "2021"
publish = false

[dependencies]
bitvec = "=1.1.1"
geoms = "=0.0.1"
lazy_static = "=1.5.1"
parking_lot = "=0.12.5"
tap = "=1.0.1"
tracing = "=0.1.44"
tracing-subscriber = { version = "0.3", features = ["env-filter"] }
widestring = "=1.2.1"
windows = { version = "=0.44.0", features = ["Win32_Foundation", "Win32_Graphics_Dwm", "Win32_Graphics_Gdi", "Win32_System_Com", "Win32_System_LibraryLoader", "Win32_System_Memory", "Win32_System_WindowsProgramming", "Win32_UI_HiDpi", "Win32_UI_WindowsAndMessaging"] }
