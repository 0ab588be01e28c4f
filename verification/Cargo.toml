[package]
name = "capscr_plugins"
version = "0.1.0"
edition = "2021"
publish = false

[dependencies]
image = { version = "0.25", default-features = false }
directories = "5"
toml = "0.8"
serde = { version = "1", features = ["derive"] }
rodio = { version = "0.19", default-features = false, features = ["wav"] }
windows = { version = "0.58", features = ["Win32_Foundation", "Win32_Graphics_Dwm", "Win32_Graphics_Gdi", "Win32_System_LibraryLoader", "Win32_UI_Controls", "Win32_UI_Input_KeyboardAndMouse", "Win32_UI_WindowsAndMessaging"] }
