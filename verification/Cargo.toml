[package]
name = "gag"
version = "0.1.0"
edition = "2021"
publish = false

[dependencies]
filedescriptor = "0.8"
libc = "0.2"
tempdir = "0.3"
winapi = { version = "0.3", features = ["fileapi", "handleapi", "minwinbase", "minwindef", "namedpipeapi", "ntdef", "processenv", "winbase", "winnt"] }
