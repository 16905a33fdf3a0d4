[package]
name = "azul_shell"
version = "0.1.0"
edition = "2021"
publish = false

[dependencies]
gl-context-loader = "*"
libm = "0.2"
webrender = { version = "*", default-features = false }
winapi = { version = "0.3", features = ["winuser", "wingdi", "libloaderapi", "errhandlingapi", "windef", "minwindef", "basetsd", "ntdef", "dwmapi", "uxtheme", "winbase", "windowsx"] }
