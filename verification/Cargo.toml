[package]
name = "thread_census"
version = "0.1.0"
edition = "2021"
publish = false

[dependencies]
anyhow = "1"
derivative = "2"
memoffset = "0.9"
time = { version = "0.3", features = ["formatting"] }
windows = { version = "0.43", features = ["Win32_Foundation", "Win32_System_Diagnostics_ToolHelp", "Win32_System_Memory", "Win32_System_Threading"] }
