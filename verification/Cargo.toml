[package]
name = "recentry"
version = "0.1.0"
edition = "2021"
publish = false

[dependencies]
serde = { version = "1", features = ["derive"] }
serde_json = "1"
url = "2"
rusqlite = { version = "*", features = ["bundled"] }
libc = "0.2"
windows-sys = { version = "*", features = ["Win32_Foundation", "Win32_System_Registry", "Win32_Storage_FileSystem"] }
