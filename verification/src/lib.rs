//! Puts one of two addressing profiles on a network interface and decides
//! which of them to keep: the one that is believed active where it
//! works, the other where only that one works, and the first again where
//! neither does.
//!
//! The crate never touches the system. Its machines ask for one action
//! at a time and are told how it went; `script` says how each action is
//! carried out on Windows, and `inventory` reads what the system answers.

pub mod address;
pub mod admin;
pub mod apply;
pub mod backend;
pub mod config;
pub mod error;
pub mod failover;
pub mod hosts;
pub mod icon;
pub mod inventory;
pub mod json;
pub mod model;
pub mod network;
pub mod probe;
pub mod proxy;
pub mod readiness;
pub mod scenes;
pub mod script;
pub mod text;
pub mod verify;
pub mod wording;
