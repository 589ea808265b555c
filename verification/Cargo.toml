[package]
name = "wizard"
version = "0.1.0"
edition = "2021"
publish = false

[dependencies]
anyhow = "=1.0.104"
ashpd = { version = "=0.13.13", features = ["file_chooser"] }
futures-util = "=0.3.34"
open = "=5.4.4"
zbus = "=5.19.0"
zbus_polkit = "=5.1.0"
