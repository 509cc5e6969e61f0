[package]
name = "uttesla"
version = "0.1.0"
edition = "2021"
publish = false

[dependencies]
cpp = "*"
cstr = "*"
gettext-rs = "*"
qmetaobject = "*"
qt_core = "*"
serde = { version = "1", features = ["derive"] }
serde_json = "1"
teslatte = "*"
tokio = { version = "1", features = ["rt-multi-thread"] }
