[package]
name = "ip_switch"
version = "0.1.0"
edition = "2021"
publish = false

[dependencies]
serde = { version = "1", features = ["derive"] }
serde_json = "1"
tokio = { version = "1", features = ["time"] }
reqwest = "*"
winapi = { version = "0.3", features = ["securitybaseapi", "winnt", "processthreadsapi", "shellapi", "windef", "winuser", "winbase", "wininet"] }
winreg = "*"
tiny-skia = "*"
ab_glyph = "*"
resvg = "*"
