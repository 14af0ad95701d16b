[package]
name = "cronjob"
version = "0.1.0"
edition = "2021"
publish = false

[dependencies]
cron = "*"
chrono = "*"
english-to-cron = "*"
bevy_app = "*"
bevy_ecs = "*"
