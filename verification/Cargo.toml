[package]
name = "winrt_notification"
version = "0.1.0"
edition = "2021"
publish = false

[dependencies]
quick-xml = "=0.42.0"
windows = { version = "=0.58.0", features = ["Data_Xml_Dom", "Foundation_Collections", "UI_Notifications"] }
windows-version = "=0.100.0"
