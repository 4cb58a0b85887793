[package]
name = "win_api"
version = "0.1.0"
edition = "2021"
publish = false

[dependencies]
failure = "0.1"
lazy_static = "1"
log = "0.4"
winapi = { version = "0.3", features = ["combaseapi", "ntdef", "oaidl", "objbase", "objidl", "rpcdce", "wbemcli", "wtypesbase"] }
