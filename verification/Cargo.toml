[package]
name = "mhp3rd_status"
version = "0.1.0"
edition = "2021"
publish = false

[dependencies]
read-process-memory = "*"
discord-rich-presence = "*"
phf = { version = "*", features = ["macros"] }
sysinfo = "*"
windows = { version = "*", features = ["Win32_Foundation", "Win32_UI_WindowsAndMessaging"] }
