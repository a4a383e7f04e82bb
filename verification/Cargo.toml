[package]
name = "async_locking"
version = "0.1.0"
edition = "2021"
publish = false

[dependencies]
libc = "0.2"
windows-sys = { version = "0.52", features = ["Win32_Foundation", "Win32_Storage_FileSystem", "Win32_System_IO"] }
tokio = { version = "1", features = ["rt"] }
async-std = { version = "1", features = ["unstable"] }
blocking = "1"
