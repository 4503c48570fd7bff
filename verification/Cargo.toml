[package]
name = "hikari"
version = "0.1.0"
edition = "2021"
publish = false

[dependencies]
bevy = { version = "=0.7.0", default-features = false, features = ["render"] }
itertools = "=0.10.5"
wgpu = "=0.12.0"
# bevy's derive crates use syn's "full" syntax tree without asking for it;
# darling asks for it, which turns it on for them too.
darling = "=0.13.4"
