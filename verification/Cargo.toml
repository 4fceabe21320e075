[package]
name = "pr_branch_sync"
version = "0.1.0"
edition = "2021"
publish = false

[dependencies]
octocrab = "=0.47.1"
tokio = { version = "=1.53.2", features = ["macros", "rt-multi-thread"] }
