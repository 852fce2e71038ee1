//! Verified core of a screen locker: password buffer, lock state machines,
//! ring indicator logic, IPC protocol decisions, monitor layout and
//! pixel-buffer helpers.

pub mod auth;
pub mod background;
pub mod clip;
pub mod config;
pub mod error;
pub mod hex;
pub mod keyboard;
pub mod monitors;
pub mod overlay;
pub mod password;
pub mod protocol;
pub mod ring;
pub mod screenshot;
pub mod session;
pub mod state;
pub mod transfer;
