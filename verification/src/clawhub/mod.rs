//! The skill registry subsystem.

pub mod client;
pub mod digest;
pub mod gate;
pub mod install;
pub mod lockfile;
pub mod service;
pub mod types;
