[package]
name = "workspace_labels"
version = "0.1.0"
edition = "2021"
publish = false

[dependencies]
clap = "=2.34.0"
counter = "=0.5.7"
error-chain = "=0.12.4"
i3ipc = "=0.10.1"
log = "=0.4.34"
regex = "=1.13.1"
signal-hook = "=0.1.17"
simple_logger = "=1.16.0"
xcb = "=0.10.1"
