[package]
name = "vst_gui"
version = "0.2.0"
edition = "2021"
publish = false

[dependencies]
vst = "*"
web-view = "*"
winapi = { version = "0.3", features = ["combaseapi", "guiddef", "libloaderapi", "minwindef", "ntdef", "oaidl", "objidl", "objidlbase", "oleauto", "unknwnbase", "winbase", "windef", "winerror", "winnt", "winuser", "wtypes", "wtypesbase"] }
