//! Verified core of a desktop autoclicker: the persisted configuration, the
//! click engine's scheduling state machine, hotkey handling and the texts the
//! window shows.

pub mod config;
pub mod engine;
pub mod keys;
pub mod run;
pub mod window;
pub mod text;
