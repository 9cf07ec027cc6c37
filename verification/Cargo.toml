[package]
name = "tag_commit"
version = "0.1.0"
edition = "2021"
publish = false

[dependencies]
anyhow = "=1.0.104"
asyncgit = "=0.17.1"
crossterm = "=0.29.0"
git2 = "=0.13.25"
log = "=0.4.34"
tui = "=0.19.0"
