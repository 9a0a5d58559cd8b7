[package]
name = "fileshare"
version = "0.1.0"
edition = "2021"
publish = false

[dependencies]
qrcode = { version = "0.14", default-features = false, features = ["svg"] }
uuid = { version = "1", features = ["v4"] }
chrono = "0.4"
mime_guess = "2"
urlencoding = "2"
axum = { version = "0.7", features = ["multipart"] }
tokio = { version = "1", features = ["full"] }
tower-http = { version = "0.6", features = ["cors"] }
async-stream = "0.3"
futures-core = "0.3"
serde = { version = "1", features = ["derive"] }
serde_json = "1"
tempfile = "3"
dirs = "5"
local-ip-address = "0.6"
libc = "0.2"
windows-sys = { version = "0.59", features = ["Win32_Foundation", "Win32_Storage_FileSystem", "Win32_System_Threading", "Win32_UI_WindowsAndMessaging", "Win32_System_SystemInformation", "Win32_Security"] }
