[package]
name = "xzual_tauri_lib"
version = "0.1.0"
edition = "2021"
publish = false

[dependencies]
serde = { version = "=1.0.229", features = ["derive"] }
local-ip-address = "=0.6.13"
winreg = "=0.56.0"
winapi = { version = "=0.3.9", features = ["wininet", "handleapi", "processthreadsapi", "securitybaseapi", "winnt", "winerror", "errhandlingapi", "synchapi", "winuser"] }
