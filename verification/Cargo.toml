[package]
name = "spotify_mem_reader"
version = "0.1.0"
edition = "2021"
publish = false

[dependencies]
winapi = { version = "0.3", features = ["errhandlingapi", "handleapi", "memoryapi", "minwindef", "processthreadsapi", "psapi", "tlhelp32", "winnt"] }
