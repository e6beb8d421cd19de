[package]
name = "sms_bridge"
version = "0.1.0"
edition = "2021"
publish = false

[dependencies]
base64 = "=0.22.1"
magic-crypt = "=5.0.1"
slack-hook2 = "=0.10.1"
config = "=0.15.27"
log = "=0.4.34"
futures = "=0.3.34"
