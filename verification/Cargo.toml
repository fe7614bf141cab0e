[package]
name = "win_desktop_tools"
version = "0.1.0"
edition = "2021"
publish = false

[dependencies]
base64 = "0.22"
image = { version = "0.24", default-features = false, features = ["png"] }
clap = { version = "4", features = ["derive"] }
serde = { version = "1", features = ["derive"] }
serde_json = "1"
tokio = { version = "1", features = ["macros", "rt-multi-thread", "time", "sync", "signal"] }
chrono = { version = "0.4", features = ["serde"] }
ctrlc = "3"
env_logger = "0.11"
log = "0.4"
lnk = "*"
winapi = { version = "0.3", features = ["winuser", "wingdi", "shellapi", "psapi", "processthreadsapi", "handleapi", "windef"] }
windows = { version = "0.58", features = ["Foundation", "Media_Control", "Storage_Streams", "Win32_Foundation", "Win32_Graphics_Gdi", "Win32_UI_Shell", "Win32_UI_WindowsAndMessaging"] }
