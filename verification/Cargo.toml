[package]
name = "rebornmp"
version = "0.1.0"
edition = "2021"
publish = false

[dependencies]
chrono = "=0.4.45"
anyhow = "=1.0.104"
once_cell = "=1.21.4"
lazy_static = "=1.5.1"
log = "=0.4.35"
winapi = { version = "=0.3.9", features = ["winuser", "wingdi", "memoryapi", "handleapi", "processthreadsapi", "winnt", "tlhelp32", "synchapi", "consoleapi", "libloaderapi", "errhandlingapi", "d3d11", "dxgi", "minwindef", "windef", "ntdef"] }
winreg = "=0.52.0"
webview2 = "=0.1.4"
webview2-com = "=0.39.1"
windows = { version = "=0.62.2", features = ["Win32_Foundation", "Win32_System_Com", "Win32_UI_WindowsAndMessaging"] }
