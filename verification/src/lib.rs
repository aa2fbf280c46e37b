//! Aurora: lighting control for four-zone Legion keyboards.
//!
//! This crate holds the verified core of the daemon: the lighting model,
//! the IPC vocabulary, the daemon's decision logic, the netlink event
//! parser, the hardware report encoder and what the desktop window shows
//! and sends. Sockets, files, threads, widgets and the HID device live in
//! the programs around it.
use vstd::prelude::*;

pub mod effects;
pub mod equality;
pub mod profile;
pub mod text;
pub mod custom_effect;
pub mod ipc;
pub mod settings;
pub mod battery;
pub mod driver;
pub mod daemon;
pub mod laws;
pub mod netlink;
pub mod keyboard;
pub mod client;
pub mod doctor;
pub mod engine;
pub mod cli;
pub mod server;
pub mod frames;
pub mod gui;
pub mod ambient;
