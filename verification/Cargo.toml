[package]
name = "process_priority_enforcer"
version = "0.1.0"
edition = "2021"
publish = false

[dependencies]
globset = "=0.4.21"
windows = { version = "=0.58.0", features = ["Win32_Foundation", "Win32_Security", "Win32_System_Diagnostics_ToolHelp", "Win32_System_Threading"] }
serde = { version = "=1.0.229", features = ["derive"] }
serde_json = "=1.0.154"
color-eyre = "=0.6.5"
arc-swap = "=1.9.3"
latches = "=0.2.0"
notify-debouncer-full = "=0.7.0"
wmi = "=0.14.5"
