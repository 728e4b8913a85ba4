[package]
name = "t_ssh_client"
version = "0.1.0"
edition = "2021"
publish = false

[dependencies]
thiserror = "=1.0.69"
thrussh = "=0.49.0"
thrussh-keys = "=0.44.0"
tokio = { version = "=1.54.1", features = ["time", "fs"] }
