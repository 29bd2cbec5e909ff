[package]
name = "prompt_editor"
version = "0.1.0"
edition = "2021"
publish = false

[dependencies]
rustyline = "15"
shlex = "1"
uuid = { version = "1", features = ["v4"] }
