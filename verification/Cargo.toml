[package]
name = "tui-launcher"
version = "4.0.0"
edition = "2021"
publish = false

[dependencies]
anyhow = "1"
chrono = "0.4"
crossterm = "*"
ratatui = "*"
textwrap = "0.16"
tokio = { version = "1", features = ["macros", "process", "rt-multi-thread", "time"] }
tui-input = "*"
