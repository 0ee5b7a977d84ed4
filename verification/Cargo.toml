[package]
name = "practice_tool"
version = "0.1.0"
edition = "2021"
publish = false

[dependencies]
once_cell = "*"
hudhook = "*"

[dependencies.windows]
version = "*"
features = [
    "Win32_Foundation",
    "Win32_System_LibraryLoader",
    "Win32_System_Memory",
    "Win32_System_SystemInformation",
    "Win32_System_SystemServices",
    "Win32_UI_Input_KeyboardAndMouse",
]
