[package]
name = "crossterm"
version = "0.2.1"
edition = "2021"
publish = false

[dependencies]
termios = "0.3"
libc = "0.2"
winapi = { version = "0.3", features = ["consoleapi", "handleapi", "minwinbase", "minwindef", "ntdef", "processenv", "winbase", "wincon", "winnt"] }
